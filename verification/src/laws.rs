//! What holds of the service as a whole: statements that relate several
//! operations, or an operation and the store, each proved from the
//! contracts of the functions it speaks of.
use crate::clock::is_reading;
use crate::handlers::article::{
    creation_begun, delete_begun, listing_begun, slug_lookup_begun, slug_resolved,
    update_begun,
};
use crate::handlers::auth::{login_begun, registering};
use crate::handlers::{resumption, run, OutcomeView, StepView};
use crate::identity::{canonical_text, uuid_parsing};
use crate::middleware::auth::{caller_of, ClaimsView};
use crate::models::article::{patched, visibility_flag, ArticleView, PatchView, PUBLIC};
use crate::models::user::UserView;
use crate::password::accepts;
use crate::store::{
    answer, answer_keeps_wf, created_after, first_from, first_from_is_least, named,
    numbered, numbered_and_owned, owned_newest_first, titled, QueryView, ReplyView, StoreState,
};
use crate::token::{
    accepted, issued_for, issuing, jwt_decoding, signing_input, verification, IssueError,
    TOKEN_TTL_SECONDS,
};
use vstd::prelude::*;

verus! {

/// A token issued for an identity verifies, at any time before its expiry,
/// to claims that name that identity. The expiry must not lie before the
/// epoch: the codec reads it unsigned.
pub proof fn issued_token_verifies(
    token: Seq<char>,
    subject: Seq<u8>,
    exp: i64,
    secret: Seq<u8>,
    now: i64,
)
    requires
        issued_for(token, subject, exp, secret),
        0 <= exp,
        now < exp,
    ensures
        verification(token, secret, now) == Some(ClaimsView { sub: canonical_text(subject), exp }),
        caller_of(verification(token, secret, now)) == Some(subject),
{
}

/// At a reading of the clock, a token for the lifetime of a login can always
/// be given an expiry, and one that is issued verifies from then until its
/// expiry to claims that name the identity it was issued for.
pub proof fn token_issued_at_a_reading_verifies(
    token: Seq<char>,
    subject: Seq<u8>,
    secret: Seq<u8>,
    now: i64,
    later: i64,
)
    requires
        is_reading(now),
        issued_for(token, subject, (now + TOKEN_TTL_SECONDS) as i64, secret),
        later < now + TOKEN_TTL_SECONDS,
    ensures
        issuing(subject, TOKEN_TTL_SECONDS, now, secret) != Err::<Seq<char>, IssueError>(
            IssueError::ExpiryOutOfRange,
        ),
        caller_of(verification(token, secret, later)) == Some(subject),
        verification(token, secret, later) matches Some(claims) && claims.exp == now
            + TOKEN_TTL_SECONDS,
{
    issued_token_verifies(token, subject, (now + TOKEN_TTL_SECONDS) as i64, secret, later);
}

/// A token whose expiry has passed is invalid, authentic signature or not.
pub proof fn expired_token_is_rejected(token: Seq<char>, secret: Seq<u8>, now: i64)
    requires
        jwt_decoding(token, secret) matches Some(claims) && claims.1 <= now,
    ensures
        verification(token, secret, now) is None,
{
}

/// The signing input of a token put together from a message and a
/// signature is the message.
pub proof fn signing_input_of_joined(message: Seq<char>, signature: Seq<char>)
    requires
        !signature.contains('.'),
    ensures
        signing_input(message + seq!['.'] + signature) == message,
    decreases signature.len(),
{
    let token = message + seq!['.'] + signature;
    if signature.len() == 0 {
        assert(token.drop_last() =~= message);
    } else {
        assert(signature.last() != '.') by {
            assert(signature.contains(signature[signature.len() - 1]));
        }
        let shorter = signature.drop_last();
        assert(!shorter.contains('.')) by {
            if shorter.contains('.') {
                let k = choose|k: int| 0 <= k < shorter.len() && shorter[k] == '.';
                assert(signature[k] == '.');
            }
        }
        assert(token.drop_last() =~= message + seq!['.'] + shorter);
        signing_input_of_joined(message, shorter);
    }
}

/// Where a token is accepted, every other token that begins with its
/// signing input and a `.` is rejected, at every time. Changing the
/// signature in any way, by one bit or by many, gives such a token.
pub proof fn altered_token_is_rejected(
    token: Seq<char>,
    forged: Seq<char>,
    secret: Seq<u8>,
    now: i64,
    later: i64,
)
    requires
        accepted(token, secret, now),
        forged != token,
        (signing_input(token) + seq!['.']).is_prefix_of(forged),
    ensures
        verification(forged, secret, later) is None,
{
    assert(jwt_decoding(forged, secret) is None);
}

/// Where the token made of a message and a signature is accepted, the same
/// message with anything else in place of the signature is rejected.
pub proof fn altered_signature_is_rejected(
    message: Seq<char>,
    signature: Seq<char>,
    altered: Seq<char>,
    secret: Seq<u8>,
    now: i64,
    later: i64,
)
    requires
        accepted(message + seq!['.'] + signature, secret, now),
        !signature.contains('.'),
        altered != signature,
    ensures
        verification(message + seq!['.'] + altered, secret, later) is None,
{
    let token = message + seq!['.'] + signature;
    let forged = message + seq!['.'] + altered;
    signing_input_of_joined(message, signature);
    assert(forged != token) by {
        if forged == token {
            assert(altered =~= forged.skip(message.len() as int + 1));
            assert(signature =~= token.skip(message.len() as int + 1));
        }
    }
    assert((message + seq!['.']).is_prefix_of(forged)) by {
        assert(forged.take((message + seq!['.']).len() as int) =~= message + seq!['.']);
    }
    altered_token_is_rejected(token, forged, secret, now, later);
}

/// A login with an unknown username and a login with a known username and a
/// password its hash does not accept end alike, in `Unauthorized`, and leave
/// the store as it was: the answer does not tell which usernames exist.
pub proof fn login_failures_look_alike(
    store: StoreState,
    unknown: Seq<char>,
    any_password: Seq<char>,
    known: Seq<char>,
    wrong_password: Seq<char>,
    secret: Seq<u8>,
    now: i64,
)
    requires
        store.user_named(unknown) is None,
        store.user_named(known) matches Some(user) && !accepts(wrong_password, user.password_hash),
    ensures
        run(store, login_begun(unknown, any_password), secret, now) == (
            store,
            OutcomeView::Unauthorized,
        ),
        run(store, login_begun(known, wrong_password), secret, now) == (
            store,
            OutcomeView::Unauthorized,
        ),
{
    reveal_with_fuel(run, 3);
}

/// A well-formed store holds at most one article with a given id.
pub proof fn article_ids_are_keys(store: StoreState, article: ArticleView, k: int)
    requires
        store.wf(),
        store.article_with_id(article.id) == Some(article),
        0 <= k < store.articles.len(),
        store.articles[k].id == article.id,
    ensures
        store.articles[k] == article,
        k == first_from(store.articles, numbered(article.id), 0),
{
    first_from_is_least(store.articles, numbered(article.id), 0);
}

/// An update of an existing article by anyone but its owner is refused and
/// leaves the store as it was.
pub proof fn stranger_cannot_update(
    store: StoreState,
    article: ArticleView,
    claims: ClaimsView,
    patch: PatchView,
    secret: Seq<u8>,
    now: i64,
)
    requires
        store.wf(),
        store.article_with_id(article.id) == Some(article),
        caller_of(Some(claims)) != Some(article.author_id),
    ensures
        run(store, update_begun(claims, article.id, patch), secret, now) == (
            store,
            if caller_of(Some(claims)) is Some {
                OutcomeView::Forbidden
            } else {
                OutcomeView::Unauthenticated
            },
        ),
{
    reveal_with_fuel(run, 3);
}

/// A delete of an existing article by anyone but its owner ends in
/// `NotFound`, as for an article that does not exist, and leaves the store
/// as it was.
pub proof fn stranger_cannot_delete(
    store: StoreState,
    article: ArticleView,
    claims: ClaimsView,
    secret: Seq<u8>,
    now: i64,
)
    requires
        store.wf(),
        store.article_with_id(article.id) == Some(article),
        caller_of(Some(claims)) != Some(article.author_id),
    ensures
        run(store, delete_begun(claims, article.id), secret, now) == (
            store,
            if caller_of(Some(claims)) is Some {
                OutcomeView::NotFound
            } else {
                OutcomeView::Unauthenticated
            },
        ),
{
    reveal_with_fuel(run, 3);
    if let Some(caller) = uuid_parsing(claims.sub) {
        let wanted = numbered_and_owned(article.id, caller);
        first_from_is_least(store.articles, wanted, 0);
        let k = first_from(store.articles, wanted, 0);
        if k < store.articles.len() {
            article_ids_are_keys(store, article, k);
        }
    }
}

/// Updates and deletes of an article that does not exist end in `NotFound`
/// and leave the store as it was.
pub proof fn absent_article_is_not_found(
    store: StoreState,
    id: i32,
    claims: ClaimsView,
    patch: PatchView,
    secret: Seq<u8>,
    now: i64,
)
    requires
        store.article_with_id(id) is None,
        caller_of(Some(claims)) is Some,
    ensures
        run(store, update_begun(claims, id, patch), secret, now) == (store, OutcomeView::NotFound),
        run(store, delete_begun(claims, id), secret, now) == (store, OutcomeView::NotFound),
{
    reveal_with_fuel(run, 3);
    let caller = uuid_parsing(claims.sub).unwrap();
    first_from_is_least(store.articles, numbered(id), 0);
    first_from_is_least(store.articles, numbered_and_owned(id, caller), 0);
    let k = first_from(store.articles, numbered_and_owned(id, caller), 0);
    if k < store.articles.len() {
        assert(numbered(id)(store.articles[k]));
    }
}

/// An update by the owner merges the patch into the article, field by
/// field, and changes nothing else in the store.
pub proof fn owner_update_merges(
    store: StoreState,
    article: ArticleView,
    claims: ClaimsView,
    patch: PatchView,
    secret: Seq<u8>,
    now: i64,
)
    requires
        store.wf(),
        store.article_with_id(article.id) == Some(article),
        caller_of(Some(claims)) == Some(article.author_id),
    ensures
        ({
            let (after, outcome) = run(store, update_begun(claims, article.id, patch), secret, now);
            let at = first_from(store.articles, numbered(article.id), 0);
            &&& outcome == OutcomeView::Updated
            &&& after.article_with_id(article.id) == Some(patched(article, patch, now))
            &&& after == StoreState {
                articles: store.articles.update(at, patched(article, patch, now)),
                ..store
            }
        }),
{
    reveal_with_fuel(run, 3);
    let at = first_from(store.articles, numbered(article.id), 0);
    first_from_is_least(store.articles, numbered(article.id), 0);
    let changed = store.articles.update(at, patched(article, patch, now));
    first_from_is_least(changed, numbered(article.id), 0);
    let again = first_from(changed, numbered(article.id), 0);
    assert(numbered(article.id)(changed[at]));
    if again < at {
        assert(changed[again] == store.articles[again]);
    }
}

/// A delete by the owner removes the article and nothing else.
pub proof fn owner_delete_removes(
    store: StoreState,
    article: ArticleView,
    claims: ClaimsView,
    secret: Seq<u8>,
    now: i64,
)
    requires
        store.wf(),
        store.article_with_id(article.id) == Some(article),
        caller_of(Some(claims)) == Some(article.author_id),
    ensures
        ({
            let (after, outcome) = run(store, delete_begun(claims, article.id), secret, now);
            let at = first_from(store.articles, numbered(article.id), 0);
            &&& outcome == OutcomeView::Deleted
            &&& after.article_with_id(article.id) is None
            &&& after == StoreState { articles: store.articles.remove(at), ..store }
        }),
{
    reveal_with_fuel(run, 3);
    let owner = article.author_id;
    let at = first_from(store.articles, numbered(article.id), 0);
    first_from_is_least(store.articles, numbered(article.id), 0);
    first_from_is_least(store.articles, numbered_and_owned(article.id, owner), 0);
    let k = first_from(store.articles, numbered_and_owned(article.id, owner), 0);
    assert(numbered_and_owned(article.id, owner)(store.articles[at]));
    if k < at {
        assert(numbered(article.id)(store.articles[k]));
    }
    let rest = store.articles.remove(at);
    first_from_is_least(rest, numbered(article.id), 0);
    let again = first_from(rest, numbered(article.id), 0);
    if again < rest.len() {
        if again < at {
            assert(rest[again] == store.articles[again]);
        } else {
            assert(rest[again] == store.articles[again + 1]);
        }
    }
}

/// A lookup by slug returns a private article exactly to the caller whose
/// verified identity is its owner; for every other caller, anonymous or
/// not, it ends as for an article that does not exist.
pub proof fn private_article_is_owner_only(article: ArticleView, claims: Option<ClaimsView>)
    requires
        article.is_public != PUBLIC,
    ensures
        caller_of(claims) == Some(article.author_id) ==> slug_resolved(
            claims,
            ReplyView::Article(Some(article)),
        ) == OutcomeView::Article(article),
        caller_of(claims) != Some(article.author_id) ==> slug_resolved(
            claims,
            ReplyView::Article(Some(article)),
        ) == OutcomeView::NotFound,
        slug_resolved(claims, ReplyView::Article(None)) == OutcomeView::NotFound,
{
}

/// To a caller who is not its owner, a lookup of a private article ends
/// exactly as a lookup in a store that holds no article under that slug; to
/// its owner it returns the article. Neither changes the store.
pub proof fn hidden_article_looks_absent(
    store: StoreState,
    without: StoreState,
    article: ArticleView,
    claims: Option<ClaimsView>,
    secret: Seq<u8>,
    now: i64,
)
    requires
        store.article_with_slug(article.slug) == Some(article),
        without.article_with_slug(article.slug) is None,
        article.is_public != PUBLIC,
    ensures
        run(without, slug_lookup_begun(claims, article.slug), secret, now) == (
            without,
            OutcomeView::NotFound,
        ),
        run(store, slug_lookup_begun(claims, article.slug), secret, now) == (
            store,
            if caller_of(claims) == Some(article.author_id) {
                OutcomeView::Article(article)
            } else {
                OutcomeView::NotFound
            },
        ),
{
    reveal_with_fuel(run, 3);
}

/// A public article is returned to every caller.
pub proof fn public_article_is_for_all(article: ArticleView, claims: Option<ClaimsView>)
    requires
        article.is_public == PUBLIC,
    ensures
        slug_resolved(claims, ReplyView::Article(Some(article))) == OutcomeView::Article(article),
{
}

/// Of two registrations under one username that is still free, the first is
/// created and the second is a conflict that writes nothing; the store then
/// holds exactly one credential under that username, the first one.
pub proof fn second_registration_conflicts(
    store: StoreState,
    username: Seq<char>,
    first_id: Seq<u8>,
    first_hash: Seq<char>,
    second_id: Seq<u8>,
    second_hash: Seq<char>,
    secret: Seq<u8>,
    now: i64,
    later: i64,
)
    requires
        store.wf(),
        store.user_named(username) is None,
    ensures
        ({
            let first = run(store, registering(username, first_id, Some(first_hash)), secret, now);
            let second = run(
                first.0,
                registering(username, second_id, Some(second_hash)),
                secret,
                later,
            );
            &&& first.1 == OutcomeView::Created
            &&& second.1 == OutcomeView::Conflict
            &&& second.0 == first.0
            &&& second.0.wf()
            &&& second.0.user_named(username) == Some(
                UserView { id: first_id, username, password_hash: first_hash },
            )
            &&& forall|i: int|
                0 <= i < second.0.users.len() && (#[trigger] second.0.users[i]).username
                    == username ==> i == store.users.len()
        }),
{
    reveal_with_fuel(run, 3);
    let user = UserView { id: first_id, username, password_hash: first_hash };
    let query = QueryView::InsertUser { user };
    first_from_is_least(store.users, named(username), 0);
    answer_keeps_wf(store, query, now);
    let grown = store.users.push(user);
    first_from_is_least(grown, named(username), 0);
    let k = first_from(grown, named(username), 0);
    assert(named(username)(grown[store.users.len() as int]));
    if k < store.users.len() {
        assert(grown[k] == store.users[k]);
    }
    assert forall|i: int| 0 <= i < grown.len() && (#[trigger] grown[i]).username
        == username implies i == store.users.len() by {
        if i < store.users.len() {
            assert(grown[i] == store.users[i]);
            assert(!named(username)(store.users[i]));
        }
    }
}

/// Whether the articles stand by ascending creation time.
pub open spec fn oldest_first(articles: Seq<ArticleView>) -> bool {
    forall|i: int, j: int|
        0 <= i < j < articles.len() ==> (#[trigger] articles[i]).created_at <= (
        #[trigger] articles[j]).created_at
}

/// What a listing returns for `owner` is scoped to that owner: it holds
/// every article of the owner and no other, the most recently created
/// first.
pub proof fn listing_is_scoped_and_ordered(articles: Seq<ArticleView>, owner: Seq<u8>)
    requires
        oldest_first(articles),
    ensures
        ({
            let list = owned_newest_first(articles, owner);
            &&& forall|k: int|
                0 <= k < list.len() ==> (#[trigger] list[k]).author_id == owner
                    && articles.contains(list[k])
            &&& forall|i: int|
                0 <= i < articles.len() && (#[trigger] articles[i]).author_id == owner
                    ==> list.contains(articles[i])
            &&& forall|i: int, j: int|
                0 <= i < j < list.len() ==> (#[trigger] list[i]).created_at >= (
                #[trigger] list[j]).created_at
        }),
    decreases articles.len(),
{
    let list = owned_newest_first(articles, owner);
    if articles.len() > 0 {
        let before = articles.drop_last();
        let last = articles.last();
        let earlier = owned_newest_first(before, owner);
        assert(oldest_first(before)) by {
            assert forall|i: int, j: int| 0 <= i < j < before.len() implies (
            #[trigger] before[i]).created_at <= (#[trigger] before[j]).created_at by {
                assert(before[i] == articles[i] && before[j] == articles[j]);
            }
        }
        listing_is_scoped_and_ordered(before, owner);
        let shift: int = if last.author_id == owner {
            1
        } else {
            0
        };
        assert forall|k: int| 0 <= k < list.len() implies (#[trigger] list[k]).author_id == owner
            && articles.contains(list[k]) by {
            if shift == 1 && k == 0 {
                assert(articles[articles.len() - 1] == list[k]);
            } else {
                assert(list[k] == earlier[k - shift]);
                let m = choose|m: int| 0 <= m < before.len() && before[m] == earlier[k - shift];
                assert(articles[m] == list[k]);
            }
        }
        assert forall|i: int|
            0 <= i < articles.len() && (#[trigger] articles[i]).author_id
                == owner implies list.contains(articles[i]) by {
            if i == articles.len() - 1 {
                assert(list[0] == articles[i]);
            } else {
                assert(before[i] == articles[i]);
                let m = choose|m: int| 0 <= m < earlier.len() && earlier[m] == before[i];
                assert(list[m + shift] == articles[i]);
            }
        }
        assert forall|i: int, j: int| 0 <= i < j < list.len() implies (
        #[trigger] list[i]).created_at >= (#[trigger] list[j]).created_at by {
            if shift == 1 && i == 0 {
                assert(list[j] == earlier[j - 1]);
                let m = choose|m: int| 0 <= m < before.len() && before[m] == earlier[j - 1];
                assert(articles[m] == list[j]);
                assert(articles[m].created_at <= articles[articles.len() - 1].created_at);
            } else {
                assert(list[i] == earlier[i - shift] && list[j] == earlier[j - shift]);
            }
        }
    }
}

/// A listing leaves the store as it was and returns the caller's articles
/// and no others, the most recently created first.
pub proof fn listing_returns_the_callers_articles(
    store: StoreState,
    claims: ClaimsView,
    secret: Seq<u8>,
    now: i64,
)
    requires
        store.wf(),
        caller_of(Some(claims)) is Some,
    ensures
        ({
            let owner = caller_of(Some(claims)).unwrap();
            let list = owned_newest_first(store.articles, owner);
            &&& run(store, listing_begun(claims), secret, now) == (store, OutcomeView::Articles(list))
            &&& forall|k: int|
                0 <= k < list.len() ==> (#[trigger] list[k]).author_id == owner
                    && store.articles.contains(list[k])
            &&& forall|i: int|
                0 <= i < store.articles.len() && (#[trigger] store.articles[i]).author_id == owner
                    ==> list.contains(store.articles[i])
            &&& forall|i: int, j: int|
                0 <= i < j < list.len() ==> (#[trigger] list[i]).created_at >= (
                #[trigger] list[j]).created_at
        }),
{
    reveal_with_fuel(run, 3);
    listing_is_scoped_and_ordered(store.articles, caller_of(Some(claims)).unwrap());
}

/// An article created under a free slug belongs to the caller; a lookup by
/// its slug then finds it, with the visibility asked for.
pub proof fn created_article_belongs_to_caller(
    store: StoreState,
    claims: ClaimsView,
    slug: Seq<char>,
    title: Seq<char>,
    content: Seq<char>,
    is_public: bool,
    secret: Seq<u8>,
    now: i64,
)
    requires
        store.wf(),
        caller_of(Some(claims)) is Some,
        store.article_with_slug(slug) is None,
        store.next_id <= i32::MAX,
    ensures
        ({
            let (after, outcome) = run(
                store,
                creation_begun(claims, slug, title, content, is_public),
                secret,
                now,
            );
            &&& outcome == OutcomeView::Created
            &&& after.users == store.users
            &&& after.article_with_slug(slug) matches Some(article)
            &&& article.author_id == caller_of(Some(claims)).unwrap()
            &&& article.slug == slug && article.title == title && article.content == content
            &&& article.is_public == visibility_flag(is_public)
            &&& article.created_at == now
        }),
{
    reveal_with_fuel(run, 3);
    let caller = uuid_parsing(claims.sub).unwrap();
    let query = QueryView::InsertArticle { owner: caller, slug, title, content, is_public };
    let after = answer(store, query, now).0;
    let at = first_from(store.articles, created_after(now), 0);
    first_from_is_least(store.articles, created_after(now), 0);
    first_from_is_least(store.articles, titled(slug), 0);
    first_from_is_least(after.articles, titled(slug), 0);
    let k = first_from(after.articles, titled(slug), 0);
    assert(titled(slug)(after.articles[at]));
    if k < at {
        assert(after.articles[k] == store.articles[k]);
        assert(!titled(slug)(store.articles[k]));
    }
}

/// Once a credential is registered under a free username, a login with a
/// password that its hash accepts ends in a token issued for the registered
/// identity, or in a fault where none can be issued; never in
/// `Unauthorized`.
pub proof fn registered_user_can_log_in(
    store: StoreState,
    username: Seq<char>,
    id: Seq<u8>,
    hash: Seq<char>,
    password: Seq<char>,
    secret: Seq<u8>,
    now: i64,
    later: i64,
)
    requires
        store.user_named(username) is None,
        accepts(password, hash),
    ensures
        ({
            let enrolled = run(store, registering(username, id, Some(hash)), secret, now).0;
            run(enrolled, login_begun(username, password), secret, later) == (
                enrolled,
                match issuing(id, TOKEN_TTL_SECONDS, later, secret) {
                    Ok(token) => OutcomeView::Token(token),
                    Err(_) => OutcomeView::Fault,
                },
            )
        }),
{
    reveal_with_fuel(run, 3);
    let user = UserView { id, username, password_hash: hash };
    first_from_is_least(store.users, named(username), 0);
    let grown = store.users.push(user);
    first_from_is_least(grown, named(username), 0);
    let k = first_from(grown, named(username), 0);
    assert(named(username)(grown[store.users.len() as int]));
    if k < store.users.len() {
        assert(grown[k] == store.users[k]);
    }
}

/// Whatever exchange is carried through, a well-formed store stays
/// well-formed.
pub proof fn run_keeps_wf(store: StoreState, step: StepView, secret: Seq<u8>, now: i64)
    requires
        store.wf(),
    ensures
        run(store, step, secret, now).0.wf(),
    decreases step.rounds(),
{
    match step {
        StepView::Done(_) => {},
        StepView::Ask { query, then } => {
            let (after, reply) = answer(store, query, now);
            answer_keeps_wf(store, query, now);
            run_keeps_wf(after, resumption(then, reply, secret, now), secret, now);
        },
    }
}

} // verus!

//! Ownership-scoped access to articles.
use crate::handlers::{Outcome, OutcomeView, Pending, PendingView, Step, StepView};
use crate::identity::{parse_identity, uuid_parsing};
use crate::middleware::auth::{caller_of, seen, Claims, ClaimsView};
use crate::models::article::{
    readable_by, same_bytes, Article, CreateArticleRequest, PatchView,
    UpdateArticleRequest, PUBLIC,
};
use crate::store::{QueryView, ReplyView, StoreQuery, StoreReply};
use vstd::prelude::*;

verus! {

/// First step of a listing for a request with these claims: the query,
/// scoped to the identity the claims name, or a refusal where the subject is
/// no identity.
pub open spec fn listing_begun(claims: ClaimsView) -> StepView {
    match uuid_parsing(claims.sub) {
        Some(caller) => StepView::Ask {
            query: QueryView::ListArticlesByOwner { owner: caller },
            then: PendingView::List,
        },
        None => StepView::Done(OutcomeView::Unauthenticated),
    }
}

/// First step of a creation: the insert of an article owned by the caller.
pub open spec fn creation_begun(
    claims: ClaimsView,
    slug: Seq<char>,
    title: Seq<char>,
    content: Seq<char>,
    is_public: bool,
) -> StepView {
    match uuid_parsing(claims.sub) {
        Some(caller) => StepView::Ask {
            query: QueryView::InsertArticle { owner: caller, slug, title, content, is_public },
            then: PendingView::Create,
        },
        None => StepView::Done(OutcomeView::Unauthenticated),
    }
}

/// First step of an update: the lookup of the article by id, with the
/// caller and the patch kept for the check that follows.
pub open spec fn update_begun(claims: ClaimsView, id: i32, patch: PatchView) -> StepView {
    match uuid_parsing(claims.sub) {
        Some(caller) => StepView::Ask {
            query: QueryView::FindArticleById { id },
            then: PendingView::UpdateFetched { caller, id, patch },
        },
        None => StepView::Done(OutcomeView::Unauthenticated),
    }
}

/// First step of a delete: the delete itself, conditioned on id and owner.
pub open spec fn delete_begun(claims: ClaimsView, id: i32) -> StepView {
    match uuid_parsing(claims.sub) {
        Some(caller) => StepView::Ask {
            query: QueryView::DeleteArticleByIdAndOwner { id, owner: caller },
            then: PendingView::Delete,
        },
        None => StepView::Done(OutcomeView::Unauthenticated),
    }
}

/// First step of a lookup by slug: the lookup, with the claims of the
/// request kept for the visibility check.
pub open spec fn slug_lookup_begun(claims: Option<ClaimsView>, slug: Seq<char>) -> StepView {
    StepView::Ask {
        query: QueryView::FindArticleBySlug { slug },
        then: PendingView::SlugFetched { claims },
    }
}

/// Begins the listing of the caller's articles. The query is scoped to the
/// caller's identity and to nothing else.
pub fn list_user_articles(claims: &Claims) -> (step: Step)
    ensures
        step@ == listing_begun(claims@),
{
    match parse_identity(claims.sub.as_str()) {
        Some(owner) => Step::Ask {
            query: StoreQuery::ListArticlesByOwner { owner },
            then: Pending::List,
        },
        None => Step::Done(Outcome::Unauthenticated),
    }
}

/// Outcome of a listing: the articles the store returned, in its order.
pub open spec fn listed(reply: ReplyView) -> OutcomeView {
    match reply {
        ReplyView::Articles(list) => OutcomeView::Articles(list),
        _ => OutcomeView::Fault,
    }
}

/// Ends a listing with the store's reply.
pub fn list_fetched(reply: StoreReply) -> (outcome: Outcome)
    ensures
        outcome@ == listed(reply@),
{
    match reply {
        StoreReply::Articles(list) => Outcome::Articles(list),
        _ => Outcome::Fault,
    }
}

/// Begins the creation of an article owned by the caller.
pub fn create_article(claims: &Claims, payload: CreateArticleRequest) -> (step: Step)
    ensures
        step@ == creation_begun(
            claims@,
            payload.slug@,
            payload.title@,
            payload.content@,
            payload.is_public,
        ),
{
    match parse_identity(claims.sub.as_str()) {
        Some(owner) => Step::Ask {
            query: StoreQuery::InsertArticle {
                owner,
                slug: payload.slug,
                title: payload.title,
                content: payload.content,
                is_public: payload.is_public,
            },
            then: Pending::Create,
        },
        None => Step::Done(Outcome::Unauthenticated),
    }
}

/// Outcome of a creation: created when the insert was carried out; a
/// taken slug is a fault like any other failure.
pub open spec fn created(reply: ReplyView) -> OutcomeView {
    match reply {
        ReplyView::Done { .. } => OutcomeView::Created,
        _ => OutcomeView::Fault,
    }
}

/// Ends a creation with the store's reply to the insert.
pub fn create_stored(reply: StoreReply) -> (outcome: Outcome)
    ensures
        outcome@ == created(reply@),
{
    match reply {
        StoreReply::Done { .. } => Outcome::Created,
        _ => Outcome::Fault,
    }
}

/// Begins an update: asks the store for the article, to check its owner
/// before anything is written.
pub fn update_article(claims: &Claims, id: i32, payload: UpdateArticleRequest) -> (step: Step)
    ensures
        step@ == update_begun(claims@, id, payload@),
{
    match parse_identity(claims.sub.as_str()) {
        Some(caller) => Step::Ask {
            query: StoreQuery::FindArticleById { id },
            then: Pending::UpdateFetched { caller, id, payload },
        },
        None => Step::Done(Outcome::Unauthenticated),
    }
}

/// Second step of an update, once the article is fetched: not found if it
/// is absent, forbidden if it belongs to another, else the write of the
/// fields that the patch sets.
pub open spec fn update_checked(
    caller: Seq<u8>,
    id: i32,
    patch: PatchView,
    reply: ReplyView,
) -> StepView {
    match reply {
        ReplyView::Article(Some(article)) => if article.author_id == caller {
            StepView::Ask {
                query: QueryView::UpdateArticleFields { id, patch },
                then: PendingView::UpdateWritten,
            }
        } else {
            StepView::Done(OutcomeView::Forbidden)
        },
        ReplyView::Article(None) => StepView::Done(OutcomeView::NotFound),
        _ => StepView::Done(OutcomeView::Fault),
    }
}

/// Continues an update with the store's reply to the lookup.
pub fn update_fetched(
    caller: Vec<u8>,
    id: i32,
    payload: UpdateArticleRequest,
    reply: StoreReply,
) -> (step: Step)
    ensures
        step@ == update_checked(caller@, id, payload@, reply@),
{
    match reply {
        StoreReply::Article(Some(article)) => {
            if same_bytes(&article.author_id, &caller) {
                Step::Ask {
                    query: StoreQuery::UpdateArticleFields {
                        id,
                        title: payload.title,
                        content: payload.content,
                        is_public: payload.is_public,
                    },
                    then: Pending::UpdateWritten,
                }
            } else {
                Step::Done(Outcome::Forbidden)
            }
        },
        StoreReply::Article(None) => Step::Done(Outcome::NotFound),
        _ => Step::Done(Outcome::Fault),
    }
}

/// Outcome of an update whose write was put to the store.
pub open spec fn updated(reply: ReplyView) -> OutcomeView {
    match reply {
        ReplyView::Done { .. } => OutcomeView::Updated,
        _ => OutcomeView::Fault,
    }
}

/// Ends an update with the store's reply to the write.
pub fn update_stored(reply: StoreReply) -> (outcome: Outcome)
    ensures
        outcome@ == updated(reply@),
{
    match reply {
        StoreReply::Done { .. } => Outcome::Updated,
        _ => Outcome::Fault,
    }
}

/// Begins a delete: one store operation conditioned on the id and on the
/// caller being the owner.
pub fn delete_article(claims: &Claims, id: i32) -> (step: Step)
    ensures
        step@ == delete_begun(claims@, id),
{
    match parse_identity(claims.sub.as_str()) {
        Some(owner) => Step::Ask {
            query: StoreQuery::DeleteArticleByIdAndOwner { id, owner },
            then: Pending::Delete,
        },
        None => Step::Done(Outcome::Unauthenticated),
    }
}

/// Outcome of a delete: deleted when a row went, not found when none did,
/// whether the article is absent or another's.
pub open spec fn deleted(reply: ReplyView) -> OutcomeView {
    match reply {
        ReplyView::Done { rows_affected } => if rows_affected > 0 {
            OutcomeView::Deleted
        } else {
            OutcomeView::NotFound
        },
        _ => OutcomeView::Fault,
    }
}

/// Ends a delete with the store's reply.
pub fn delete_stored(reply: StoreReply) -> (outcome: Outcome)
    ensures
        outcome@ == deleted(reply@),
{
    match reply {
        StoreReply::Done { rows_affected } => if rows_affected > 0 {
            Outcome::Deleted
        } else {
            Outcome::NotFound
        },
        _ => Outcome::Fault,
    }
}

/// Begins the lookup of an article by slug, for a request that may be
/// anonymous.
pub fn get_article_by_slug(claims: Option<Claims>, slug: String) -> (step: Step)
    ensures
        step@ == slug_lookup_begun(seen(claims), slug@),
{
    Step::Ask {
        query: StoreQuery::FindArticleBySlug { slug },
        then: Pending::SlugFetched { claims },
    }
}

/// Outcome of a lookup by slug: the article if the caller may read it, not
/// found if it is absent and just so if it is hidden from the caller.
pub open spec fn slug_resolved(claims: Option<ClaimsView>, reply: ReplyView) -> OutcomeView {
    match reply {
        ReplyView::Article(Some(article)) => if readable_by(article, caller_of(claims)) {
            OutcomeView::Article(article)
        } else {
            OutcomeView::NotFound
        },
        ReplyView::Article(None) => OutcomeView::NotFound,
        _ => OutcomeView::Fault,
    }
}

/// Whether the request with these claims acts as `owner`.
pub fn is_caller(claims: &Option<Claims>, owner: &Vec<u8>) -> (same: bool)
    ensures
        same == (caller_of(seen(*claims)) == Some(owner@)),
{
    match claims {
        Some(c) => match parse_identity(c.sub.as_str()) {
            Some(caller) => same_bytes(&caller, owner),
            None => false,
        },
        None => false,
    }
}

/// Ends a lookup by slug with the store's reply.
pub fn slug_fetched(claims: Option<Claims>, reply: StoreReply) -> (outcome: Outcome)
    ensures
        outcome@ == slug_resolved(seen(claims), reply@),
{
    match reply {
        StoreReply::Article(Some(article)) => {
            if article.is_public == PUBLIC || is_caller(&claims, &article.author_id) {
                Outcome::Article(article)
            } else {
                Outcome::NotFound
            }
        },
        StoreReply::Article(None) => Outcome::NotFound,
        _ => Outcome::Fault,
    }
}

} // verus!

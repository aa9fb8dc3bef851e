//! The boundary to the credential and article store. The store itself is an
//! outside service: the library hands out a [`StoreQuery`] and is handed
//! back a [`StoreReply`]. [`answer`] says what a store makes of each query;
//! `memory` holds an executable store that does exactly that.
use crate::models::article::{
    patched, seen_article, seen_articles, seen_text, visibility_flag, Article, ArticleView,
    PatchView,
};
use crate::models::user::{seen_user, User, UserView};
use vstd::prelude::*;

pub mod memory;

verus! {

/// One keyed operation of the store.
#[derive(Debug)]
#[allow(inconsistent_fields)]
pub enum StoreQuery {
    FindUserByUsername { username: String },
    InsertUser { user: User },
    FindArticleById { id: i32 },
    FindArticleBySlug { slug: String },
    ListArticlesByOwner { owner: Vec<u8> },
    InsertArticle { owner: Vec<u8>, slug: String, title: String, content: String, is_public: bool },
    UpdateArticleFields {
        id: i32,
        title: Option<String>,
        content: Option<String>,
        is_public: Option<bool>,
    },
    DeleteArticleByIdAndOwner { id: i32, owner: Vec<u8> },
}

/// Mathematical value of a [`StoreQuery`].
pub enum QueryView {
    FindUserByUsername { username: Seq<char> },
    InsertUser { user: UserView },
    FindArticleById { id: i32 },
    FindArticleBySlug { slug: Seq<char> },
    ListArticlesByOwner { owner: Seq<u8> },
    InsertArticle {
        owner: Seq<u8>,
        slug: Seq<char>,
        title: Seq<char>,
        content: Seq<char>,
        is_public: bool,
    },
    UpdateArticleFields { id: i32, patch: PatchView },
    DeleteArticleByIdAndOwner { id: i32, owner: Seq<u8> },
}

impl View for StoreQuery {
    type V = QueryView;

    open spec fn view(&self) -> QueryView {
        match *self {
            StoreQuery::FindUserByUsername { username } => QueryView::FindUserByUsername {
                username: username@,
            },
            StoreQuery::InsertUser { user } => QueryView::InsertUser { user: user@ },
            StoreQuery::FindArticleById { id } => QueryView::FindArticleById { id },
            StoreQuery::FindArticleBySlug { slug } => QueryView::FindArticleBySlug { slug: slug@ },
            StoreQuery::ListArticlesByOwner { owner } => QueryView::ListArticlesByOwner {
                owner: owner@,
            },
            StoreQuery::InsertArticle {
                owner,
                slug,
                title,
                content,
                is_public,
            } => QueryView::InsertArticle {
                owner: owner@,
                slug: slug@,
                title: title@,
                content: content@,
                is_public,
            },
            StoreQuery::UpdateArticleFields {
                id,
                title,
                content,
                is_public,
            } => QueryView::UpdateArticleFields {
                id,
                patch: PatchView {
                    title: seen_text(title),
                    content: seen_text(content),
                    is_public,
                },
            },
            StoreQuery::DeleteArticleByIdAndOwner { id, owner } => {
                QueryView::DeleteArticleByIdAndOwner { id, owner: owner@ }
            },
        }
    }
}

/// What the store hands back.
#[derive(Debug)]
pub enum StoreReply {
    /// Result of a lookup of one credential.
    User(Option<User>),
    /// Result of a lookup of one article.
    Article(Option<Article>),
    /// Result of a listing.
    Articles(Vec<Article>),
    /// A write was carried out and touched this many rows.
    Done { rows_affected: u64 },
    /// A write was refused because a unique key is taken; nothing was written.
    UniqueViolation,
    /// Any other failure.
    Failed,
}

/// Mathematical value of a [`StoreReply`].
pub enum ReplyView {
    User(Option<UserView>),
    Article(Option<ArticleView>),
    Articles(Seq<ArticleView>),
    Done { rows_affected: u64 },
    UniqueViolation,
    Failed,
}

impl View for StoreReply {
    type V = ReplyView;

    open spec fn view(&self) -> ReplyView {
        match *self {
            StoreReply::User(u) => ReplyView::User(seen_user(u)),
            StoreReply::Article(a) => ReplyView::Article(seen_article(a)),
            StoreReply::Articles(list) => ReplyView::Articles(seen_articles(list@)),
            StoreReply::Done { rows_affected } => ReplyView::Done { rows_affected },
            StoreReply::UniqueViolation => ReplyView::UniqueViolation,
            StoreReply::Failed => ReplyView::Failed,
        }
    }
}

/// Largest article id the store can assign.
pub const MAX_ARTICLE_ID: i32 = i32::MAX;

/// Contents of a store: the credentials, the articles by ascending creation
/// time, and the id the next article gets.
pub struct StoreState {
    pub users: Seq<UserView>,
    pub articles: Seq<ArticleView>,
    pub next_id: int,
}

/// Least index from `from` on whose item satisfies `wanted`; the length of
/// the sequence if there is none.
pub open spec fn first_from<T>(items: Seq<T>, wanted: spec_fn(T) -> bool, from: int) -> int
    decreases items.len() - from,
{
    if from < 0 || from >= items.len() {
        items.len() as int
    } else if wanted(items[from]) {
        from
    } else {
        first_from(items, wanted, from + 1)
    }
}

/// The first item that satisfies `wanted`, if any does.
pub open spec fn first_of<T>(items: Seq<T>, wanted: spec_fn(T) -> bool) -> Option<T> {
    let k = first_from(items, wanted, 0);
    if k < items.len() {
        Some(items[k])
    } else {
        None
    }
}

/// Holds of the credential with this username.
pub open spec fn named(username: Seq<char>) -> spec_fn(UserView) -> bool {
    |u: UserView| u.username == username
}

/// Holds of the article with this id.
pub open spec fn numbered(id: i32) -> spec_fn(ArticleView) -> bool {
    |a: ArticleView| a.id == id
}

/// Holds of the article with this slug.
pub open spec fn titled(slug: Seq<char>) -> spec_fn(ArticleView) -> bool {
    |a: ArticleView| a.slug == slug
}

/// Holds of the article with this id if `owner` owns it.
pub open spec fn numbered_and_owned(id: i32, owner: Seq<u8>) -> spec_fn(ArticleView) -> bool {
    |a: ArticleView| a.id == id && a.author_id == owner
}

/// Holds of the articles created after `now`.
pub open spec fn created_after(now: i64) -> spec_fn(ArticleView) -> bool {
    |a: ArticleView| a.created_at > now
}

/// The articles of `owner` among `articles`, last one first.
pub open spec fn owned_newest_first(articles: Seq<ArticleView>, owner: Seq<u8>) -> Seq<ArticleView>
    decreases articles.len(),
{
    if articles.len() == 0 {
        Seq::empty()
    } else {
        let earlier = owned_newest_first(articles.drop_last(), owner);
        if articles.last().author_id == owner {
            seq![articles.last()] + earlier
        } else {
            earlier
        }
    }
}

impl StoreState {
    /// The empty store.
    pub open spec fn empty() -> StoreState {
        StoreState { users: Seq::empty(), articles: Seq::empty(), next_id: 1 }
    }

    /// Usernames, article ids and slugs are unique, ids lie below the next
    /// one, and the articles stand by ascending creation time.
    pub open spec fn wf(self) -> bool {
        &&& 1 <= self.next_id <= MAX_ARTICLE_ID + 1
        &&& forall|i: int, j: int|
            0 <= i < j < self.users.len() ==> (#[trigger] self.users[i]).username != (
            #[trigger] self.users[j]).username
        &&& forall|i: int, j: int|
            0 <= i < j < self.articles.len() ==> {
                &&& (#[trigger] self.articles[i]).id != (#[trigger] self.articles[j]).id
                &&& self.articles[i].slug != self.articles[j].slug
                &&& self.articles[i].created_at <= self.articles[j].created_at
            }
        &&& forall|i: int|
            0 <= i < self.articles.len() ==> 1 <= (#[trigger] self.articles[i]).id < self.next_id
    }

    /// The credential with this username.
    pub open spec fn user_named(self, username: Seq<char>) -> Option<UserView> {
        first_of(self.users, named(username))
    }

    /// The article with this id.
    pub open spec fn article_with_id(self, id: i32) -> Option<ArticleView> {
        first_of(self.articles, numbered(id))
    }

    /// The article with this slug.
    pub open spec fn article_with_slug(self, slug: Seq<char>) -> Option<ArticleView> {
        first_of(self.articles, titled(slug))
    }
}

/// What a store with contents `store` makes of `query` at time `now`: its
/// contents afterwards and its reply. A store never answers `Failed` of its
/// own accord but when it has run out of article ids.
pub open spec fn answer(store: StoreState, query: QueryView, now: i64) -> (StoreState, ReplyView) {
    match query {
        QueryView::FindUserByUsername { username } => (
            store,
            ReplyView::User(store.user_named(username)),
        ),
        QueryView::InsertUser { user } => if store.user_named(user.username) is Some {
            (store, ReplyView::UniqueViolation)
        } else {
            (
                StoreState { users: store.users.push(user), ..store },
                ReplyView::Done { rows_affected: 1 },
            )
        },
        QueryView::FindArticleById { id } => (store, ReplyView::Article(store.article_with_id(id))),
        QueryView::FindArticleBySlug { slug } => (
            store,
            ReplyView::Article(store.article_with_slug(slug)),
        ),
        QueryView::ListArticlesByOwner { owner } => (
            store,
            ReplyView::Articles(owned_newest_first(store.articles, owner)),
        ),
        QueryView::InsertArticle { owner, slug, title, content, is_public } => {
            if store.article_with_slug(slug) is Some {
                (store, ReplyView::UniqueViolation)
            } else if store.next_id > MAX_ARTICLE_ID {
                (store, ReplyView::Failed)
            } else {
                let article = ArticleView {
                    id: store.next_id as i32,
                    author_id: owner,
                    slug,
                    title,
                    content,
                    is_public: visibility_flag(is_public),
                    created_at: now,
                    updated_at: now,
                };
                let at = first_from(store.articles, created_after(now), 0);
                (
                    StoreState {
                        articles: store.articles.insert(at, article),
                        next_id: store.next_id + 1,
                        ..store
                    },
                    ReplyView::Done { rows_affected: 1 },
                )
            }
        },
        QueryView::UpdateArticleFields { id, patch } => {
            let at = first_from(store.articles, numbered(id), 0);
            if at < store.articles.len() {
                (
                    StoreState {
                        articles: store.articles.update(
                            at,
                            patched(store.articles[at], patch, now),
                        ),
                        ..store
                    },
                    ReplyView::Done { rows_affected: 1 },
                )
            } else {
                (store, ReplyView::Done { rows_affected: 0 })
            }
        },
        QueryView::DeleteArticleByIdAndOwner { id, owner } => {
            let at = first_from(store.articles, numbered_and_owned(id, owner), 0);
            if at < store.articles.len() {
                (
                    StoreState { articles: store.articles.remove(at), ..store },
                    ReplyView::Done { rows_affected: 1 },
                )
            } else {
                (store, ReplyView::Done { rows_affected: 0 })
            }
        },
    }
}

/// `first_from` returns the least index from `from` on that satisfies
/// `wanted`, or the length.
pub proof fn first_from_is_least<T>(items: Seq<T>, wanted: spec_fn(T) -> bool, from: int)
    requires
        0 <= from <= items.len(),
    ensures
        from <= first_from(items, wanted, from) <= items.len(),
        first_from(items, wanted, from) < items.len() ==> wanted(
            items[first_from(items, wanted, from)],
        ),
        forall|i: int| from <= i < first_from(items, wanted, from) ==> !wanted(#[trigger] items[i]),
    decreases items.len() - from,
{
    if from < items.len() && !wanted(items[from]) {
        first_from_is_least(items, wanted, from + 1);
    }
}

/// Whatever the query, a well-formed store stays well-formed.
pub proof fn answer_keeps_wf(store: StoreState, query: QueryView, now: i64)
    requires
        store.wf(),
    ensures
        answer(store, query, now).0.wf(),
{
    match query {
        QueryView::InsertUser { user } => {
            first_from_is_least(store.users, named(user.username), 0);
        },
        QueryView::InsertArticle { owner, slug, title, content, is_public } => {
            first_from_is_least(store.articles, titled(slug), 0);
            first_from_is_least(store.articles, created_after(now), 0);
        },
        QueryView::UpdateArticleFields { id, patch } => {
            first_from_is_least(store.articles, numbered(id), 0);
        },
        QueryView::DeleteArticleByIdAndOwner { id, owner } => {
            first_from_is_least(store.articles, numbered_and_owned(id, owner), 0);
        },
        _ => {},
    }
}

} // verus!

//! An executable store that keeps everything in memory and answers every
//! query as [`answer`] says.
use crate::models::article::{
    patched, same_bytes, seen_articles, Article, ArticleView, PRIVATE, PUBLIC,
};
use crate::models::user::{seen_users, User};
use crate::store::{
    answer, answer_keeps_wf, created_after, first_from, named, numbered,
    numbered_and_owned, owned_newest_first, titled, StoreQuery, StoreReply,
    StoreState, MAX_ARTICLE_ID,
};
use crate::handlers::{resume_at, run, Outcome, Step};
use vstd::prelude::*;

verus! {

/// A store in memory.
pub struct MemoryStore {
    users: Vec<User>,
    articles: Vec<Article>,
    next_id: i64,
}

impl View for MemoryStore {
    type V = StoreState;

    closed spec fn view(&self) -> StoreState {
        StoreState {
            users: seen_users(self.users@),
            articles: seen_articles(self.articles@),
            next_id: self.next_id as int,
        }
    }
}

/// A copy of a byte string.
fn copy_bytes(bytes: &Vec<u8>) -> (copy: Vec<u8>)
    ensures
        copy@ == bytes@,
{
    let mut copy: Vec<u8> = Vec::new();
    let mut i: usize = 0;
    while i < bytes.len()
        invariant
            i <= bytes.len(),
            copy@ == bytes@.take(i as int),
        decreases bytes.len() - i,
    {
        copy.push(bytes[i]);
        assert(bytes@.take(i + 1) =~= bytes@.take(i as int).push(bytes@[i as int]));
        i += 1;
    }
    assert(bytes@.take(bytes.len() as int) =~= bytes@);
    copy
}

/// A copy of a credential.
fn copy_user(user: &User) -> (copy: User)
    ensures
        copy@ == user@,
{
    User {
        id: copy_bytes(&user.id),
        username: user.username.clone(),
        password_hash: user.password_hash.clone(),
    }
}

/// A copy of an article.
fn copy_article(article: &Article) -> (copy: Article)
    ensures
        copy@ == article@,
{
    Article {
        id: article.id,
        author_id: copy_bytes(&article.author_id),
        slug: article.slug.clone(),
        title: article.title.clone(),
        content: article.content.clone(),
        is_public: article.is_public,
        created_at: article.created_at,
        updated_at: article.updated_at,
    }
}

impl MemoryStore {
    /// An empty store.
    pub fn new() -> (store: MemoryStore)
        ensures
            store@ == StoreState::empty(),
            store@.wf(),
    {
        let store = MemoryStore { users: Vec::new(), articles: Vec::new(), next_id: 1 };
        assert(store@.users =~= Seq::empty());
        assert(store@.articles =~= Seq::empty());
        store
    }

    /// Index of the credential with this username, or the number of
    /// credentials.
    fn user_slot(&self, username: &String) -> (k: usize)
        ensures
            k == first_from(self@.users, named(username@), 0),
            k <= self.users.len(),
    {
        let mut k: usize = 0;
        while k < self.users.len()
            invariant
                k <= self.users.len(),
                first_from(self@.users, named(username@), 0) == first_from(
                    self@.users,
                    named(username@),
                    k as int,
                ),
            decreases self.users.len() - k,
        {
            if self.users[k].username == *username {
                return k;
            }
            k += 1;
        }
        k
    }

    /// Index of the article with this id, or the number of articles.
    fn id_slot(&self, id: i32) -> (k: usize)
        ensures
            k == first_from(self@.articles, numbered(id), 0),
            k <= self.articles.len(),
    {
        let mut k: usize = 0;
        while k < self.articles.len()
            invariant
                k <= self.articles.len(),
                first_from(self@.articles, numbered(id), 0) == first_from(
                    self@.articles,
                    numbered(id),
                    k as int,
                ),
            decreases self.articles.len() - k,
        {
            if self.articles[k].id == id {
                return k;
            }
            k += 1;
        }
        k
    }

    /// Index of the article with this slug, or the number of articles.
    fn slug_slot(&self, slug: &String) -> (k: usize)
        ensures
            k == first_from(self@.articles, titled(slug@), 0),
            k <= self.articles.len(),
    {
        let mut k: usize = 0;
        while k < self.articles.len()
            invariant
                k <= self.articles.len(),
                first_from(self@.articles, titled(slug@), 0) == first_from(
                    self@.articles,
                    titled(slug@),
                    k as int,
                ),
            decreases self.articles.len() - k,
        {
            if self.articles[k].slug == *slug {
                return k;
            }
            k += 1;
        }
        k
    }

    /// Index of the article with this id and owner, or the number of
    /// articles.
    fn owned_slot(&self, id: i32, owner: &Vec<u8>) -> (k: usize)
        ensures
            k == first_from(self@.articles, numbered_and_owned(id, owner@), 0),
            k <= self.articles.len(),
    {
        let mut k: usize = 0;
        while k < self.articles.len()
            invariant
                k <= self.articles.len(),
                first_from(self@.articles, numbered_and_owned(id, owner@), 0) == first_from(
                    self@.articles,
                    numbered_and_owned(id, owner@),
                    k as int,
                ),
            decreases self.articles.len() - k,
        {
            if self.articles[k].id == id && same_bytes(&self.articles[k].author_id, owner) {
                return k;
            }
            k += 1;
        }
        k
    }

    /// Index of the first article created after `now`, or the number of
    /// articles.
    fn later_slot(&self, now: i64) -> (k: usize)
        ensures
            k == first_from(self@.articles, created_after(now), 0),
            k <= self.articles.len(),
    {
        let mut k: usize = 0;
        while k < self.articles.len()
            invariant
                k <= self.articles.len(),
                first_from(self@.articles, created_after(now), 0) == first_from(
                    self@.articles,
                    created_after(now),
                    k as int,
                ),
            decreases self.articles.len() - k,
        {
            if self.articles[k].created_at > now {
                return k;
            }
            k += 1;
        }
        k
    }

    /// The articles of `owner`, last one first.
    fn owned_by(&self, owner: &Vec<u8>) -> (list: Vec<Article>)
        ensures
            seen_articles(list@) == owned_newest_first(self@.articles, owner@),
    {
        let mut list: Vec<Article> = Vec::new();
        let mut k: usize = self.articles.len();
        assert(self@.articles.take(k as int) =~= self@.articles);
        assert(seen_articles(list@) =~= Seq::empty());
        while k > 0
            invariant
                k <= self.articles.len(),
                owned_newest_first(self@.articles, owner@) == seen_articles(list@)
                    + owned_newest_first(self@.articles.take(k as int), owner@),
            decreases k,
        {
            let ghost before = seen_articles(list@);
            let ghost upto = self@.articles.take(k as int);
            k -= 1;
            assert(upto.drop_last() =~= self@.articles.take(k as int));
            assert(upto.last() == self.articles@[k as int]@);
            if same_bytes(&self.articles[k].author_id, owner) {
                list.push(copy_article(&self.articles[k]));
                assert(seen_articles(list@) =~= before.push(self.articles@[k as int]@));
                assert(before.push(upto.last()) + owned_newest_first(upto.drop_last(), owner@)
                    =~= before + (seq![upto.last()] + owned_newest_first(
                    upto.drop_last(),
                    owner@,
                )));
            }
        }
        assert(self@.articles.take(0) =~= Seq::empty());
        assert(seen_articles(list@) + Seq::<ArticleView>::empty() =~= seen_articles(list@));
        list
    }

    /// Puts one query to the store at time `now`.
    pub fn execute(&mut self, query: StoreQuery, now: i64) -> (reply: StoreReply)
        requires
            old(self)@.wf(),
        ensures
            (final(self)@, reply@) == answer(old(self)@, query@, now),
            final(self)@.wf(),
    {
        proof {
            answer_keeps_wf(self@, query@, now);
        }
        match query {
            StoreQuery::FindUserByUsername { username } => {
                let k = self.user_slot(&username);
                if k < self.users.len() {
                    StoreReply::User(Some(copy_user(&self.users[k])))
                } else {
                    StoreReply::User(None)
                }
            },
            StoreQuery::InsertUser { user } => {
                let k = self.user_slot(&user.username);
                if k < self.users.len() {
                    StoreReply::UniqueViolation
                } else {
                    self.users.push(user);
                    assert(self@.users =~= old(self)@.users.push(user@));
                    StoreReply::Done { rows_affected: 1 }
                }
            },
            StoreQuery::FindArticleById { id } => {
                let k = self.id_slot(id);
                if k < self.articles.len() {
                    StoreReply::Article(Some(copy_article(&self.articles[k])))
                } else {
                    StoreReply::Article(None)
                }
            },
            StoreQuery::FindArticleBySlug { slug } => {
                let k = self.slug_slot(&slug);
                if k < self.articles.len() {
                    StoreReply::Article(Some(copy_article(&self.articles[k])))
                } else {
                    StoreReply::Article(None)
                }
            },
            StoreQuery::ListArticlesByOwner { owner } => {
                StoreReply::Articles(self.owned_by(&owner))
            },
            StoreQuery::InsertArticle { owner, slug, title, content, is_public } => {
                let taken = self.slug_slot(&slug);
                if taken < self.articles.len() {
                    return StoreReply::UniqueViolation;
                }
                if self.next_id > MAX_ARTICLE_ID as i64 {
                    return StoreReply::Failed;
                }
                let at = self.later_slot(now);
                let article = Article {
                    id: self.next_id as i32,
                    author_id: owner,
                    slug,
                    title,
                    content,
                    is_public: if is_public {
                        PUBLIC
                    } else {
                        PRIVATE
                    },
                    created_at: now,
                    updated_at: now,
                };
                self.next_id = self.next_id + 1;
                self.articles.insert(at, article);
                assert(self@.articles =~= old(self)@.articles.insert(at as int, article@));
                StoreReply::Done { rows_affected: 1 }
            },
            StoreQuery::UpdateArticleFields { id, title, content, is_public } => {
                let at = self.id_slot(id);
                if at >= self.articles.len() {
                    return StoreReply::Done { rows_affected: 0 };
                }
                let old_article = self.articles.remove(at);
                let ghost patch = query@->UpdateArticleFields_patch;
                let article = Article {
                    id: old_article.id,
                    author_id: old_article.author_id,
                    slug: old_article.slug,
                    title: match title {
                        Some(t) => t,
                        None => old_article.title,
                    },
                    content: match content {
                        Some(c) => c,
                        None => old_article.content,
                    },
                    is_public: match is_public {
                        Some(true) => PUBLIC,
                        Some(false) => PRIVATE,
                        None => old_article.is_public,
                    },
                    created_at: old_article.created_at,
                    updated_at: now,
                };
                assert(article@ == patched(old_article@, patch, now));
                self.articles.insert(at, article);
                assert(self@.articles =~= old(self)@.articles.update(at as int, article@));
                StoreReply::Done { rows_affected: 1 }
            },
            StoreQuery::DeleteArticleByIdAndOwner { id, owner } => {
                let at = self.owned_slot(id, &owner);
                if at >= self.articles.len() {
                    return StoreReply::Done { rows_affected: 0 };
                }
                self.articles.remove(at);
                assert(self@.articles =~= old(self)@.articles.remove(at as int));
                StoreReply::Done { rows_affected: 1 }
            },
        }
    }

    /// Carries a whole exchange through against this store, at time `now`:
    /// answers each query of the operation until it ends.
    pub fn serve(&mut self, step: Step, secret: &[u8], now: i64) -> (outcome: Outcome)
        requires
            old(self)@.wf(),
        ensures
            (final(self)@, outcome@) == run(old(self)@, step@, secret@, now),
            final(self)@.wf(),
    {
        let mut current = step;
        loop
            invariant
                self@.wf(),
                run(self@, current@, secret@, now) == run(old(self)@, step@, secret@, now),
            decreases current@.rounds(),
        {
            match current {
                Step::Done(outcome) => {
                    return outcome;
                },
                Step::Ask { query, then } => {
                    let reply = self.execute(query, now);
                    current = resume_at(then, reply, secret, now);
                },
            }
        }
    }
}

} // verus!

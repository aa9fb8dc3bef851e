//! Articles, the payloads that create and change them, and the rule that
//! says who may read one.
use vstd::prelude::*;

verus! {

/// Value of `is_public` that marks an article as readable by anyone.
pub const PUBLIC: i8 = 1;

/// Value of `is_public` that a newly hidden article gets.
pub const PRIVATE: i8 = 0;

/// A stored article. The store assigns `id`, `created_at` and `updated_at`
/// (seconds since the Unix epoch); `author_id` never changes.
#[derive(Debug, Clone)]
pub struct Article {
    pub id: i32,
    pub author_id: Vec<u8>,
    pub slug: String,
    pub title: String,
    pub content: String,
    pub is_public: i8,
    pub created_at: i64,
    pub updated_at: i64,
}

/// Mathematical value of an [`Article`].
pub struct ArticleView {
    pub id: i32,
    pub author_id: Seq<u8>,
    pub slug: Seq<char>,
    pub title: Seq<char>,
    pub content: Seq<char>,
    pub is_public: i8,
    pub created_at: i64,
    pub updated_at: i64,
}

impl View for Article {
    type V = ArticleView;

    open spec fn view(&self) -> ArticleView {
        ArticleView {
            id: self.id,
            author_id: self.author_id@,
            slug: self.slug@,
            title: self.title@,
            content: self.content@,
            is_public: self.is_public,
            created_at: self.created_at,
            updated_at: self.updated_at,
        }
    }
}

/// Payload that creates an article.
#[derive(Debug)]
pub struct CreateArticleRequest {
    pub slug: String,
    pub title: String,
    pub content: String,
    pub is_public: bool,
}

/// Payload that changes an article: a field left `None` keeps its value.
#[derive(Debug)]
pub struct UpdateArticleRequest {
    pub title: Option<String>,
    pub content: Option<String>,
    pub is_public: Option<bool>,
}

/// Mathematical value of an [`UpdateArticleRequest`].
pub struct PatchView {
    pub title: Option<Seq<char>>,
    pub content: Option<Seq<char>>,
    pub is_public: Option<bool>,
}

/// Mathematical value of a text that may be absent.
pub open spec fn seen_text(text: Option<String>) -> Option<Seq<char>> {
    match text {
        Some(t) => Some(t@),
        None => None,
    }
}

impl View for UpdateArticleRequest {
    type V = PatchView;

    open spec fn view(&self) -> PatchView {
        PatchView {
            title: seen_text(self.title),
            content: seen_text(self.content),
            is_public: self.is_public,
        }
    }
}

/// Mathematical value of an article that may be absent.
pub open spec fn seen_article(article: Option<Article>) -> Option<ArticleView> {
    match article {
        Some(a) => Some(a@),
        None => None,
    }
}

/// Mathematical value of a list of articles.
pub open spec fn seen_articles(articles: Seq<Article>) -> Seq<ArticleView> {
    articles.map_values(|a: Article| a@)
}

/// How a visibility choice is stored.
pub open spec fn visibility_flag(is_public: bool) -> i8 {
    if is_public {
        PUBLIC
    } else {
        PRIVATE
    }
}

/// Who may read an article: anyone if it is public, else only its owner.
/// `caller` is the verified identity of the request, `None` for an
/// anonymous one.
pub open spec fn readable_by(article: ArticleView, caller: Option<Seq<u8>>) -> bool {
    article.is_public == PUBLIC || caller == Some(article.author_id)
}

/// An article after a partial update at time `now`: each field the patch
/// sets takes the new value, every other field stays, the owner included.
pub open spec fn patched(article: ArticleView, patch: PatchView, now: i64) -> ArticleView {
    ArticleView {
        title: match patch.title {
            Some(t) => t,
            None => article.title,
        },
        content: match patch.content {
            Some(c) => c,
            None => article.content,
        },
        is_public: match patch.is_public {
            Some(p) => visibility_flag(p),
            None => article.is_public,
        },
        updated_at: now,
        ..article
    }
}

/// Whether two byte strings are the same.
pub fn same_bytes(a: &Vec<u8>, b: &Vec<u8>) -> (same: bool)
    ensures
        same == (a@ == b@),
{
    if a.len() != b.len() {
        return false;
    }
    let mut i: usize = 0;
    while i < a.len()
        invariant
            a.len() == b.len(),
            i <= a.len(),
            forall|k: int| 0 <= k < i ==> a[k] == b[k],
        decreases a.len() - i,
    {
        if a[i] != b[i] {
            return false;
        }
        i += 1;
    }
    assert(a@ =~= b@);
    true
}

} // verus!

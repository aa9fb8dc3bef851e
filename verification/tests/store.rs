use article_recorder::models::article::Article;
use article_recorder::models::user::User;
use article_recorder::store::memory::MemoryStore;
use article_recorder::store::{StoreQuery, StoreReply};

fn user(id: u8, name: &str) -> User {
    User { id: vec![id; 16], username: String::from(name), password_hash: format!("hash-of-{}", name) }
}

fn insert(owner: u8, slug: &str, is_public: bool) -> StoreQuery {
    StoreQuery::InsertArticle {
        owner: vec![owner; 16],
        slug: String::from(slug),
        title: format!("title of {}", slug),
        content: format!("content of {}", slug),
        is_public,
    }
}

fn find(store: &mut MemoryStore, slug: &str) -> Option<Article> {
    match store.execute(StoreQuery::FindArticleBySlug { slug: String::from(slug) }, 0) {
        StoreReply::Article(found) => found,
        other => panic!("unexpected reply {:?}", other),
    }
}

fn list(store: &mut MemoryStore, owner: u8) -> Vec<String> {
    match store.execute(StoreQuery::ListArticlesByOwner { owner: vec![owner; 16] }, 0) {
        StoreReply::Articles(found) => found.into_iter().map(|a| a.slug).collect(),
        other => panic!("unexpected reply {:?}", other),
    }
}

#[test]
fn empty_store_finds_nothing() {
    let mut store = MemoryStore::new();
    assert!(matches!(
        store.execute(StoreQuery::FindUserByUsername { username: String::from("a") }, 0),
        StoreReply::User(None)
    ));
    assert!(matches!(store.execute(StoreQuery::FindArticleById { id: 1 }, 0), StoreReply::Article(None)));
    assert!(find(&mut store, "s").is_none());
    assert!(list(&mut store, 1).is_empty());
}

#[test]
fn usernames_are_unique_and_case_sensitive() {
    let mut store = MemoryStore::new();
    assert!(matches!(
        store.execute(StoreQuery::InsertUser { user: user(1, "alice") }, 0),
        StoreReply::Done { rows_affected: 1 }
    ));
    assert!(matches!(
        store.execute(StoreQuery::InsertUser { user: user(2, "alice") }, 0),
        StoreReply::UniqueViolation
    ));
    assert!(matches!(
        store.execute(StoreQuery::InsertUser { user: user(3, "Alice") }, 0),
        StoreReply::Done { rows_affected: 1 }
    ));
    match store.execute(StoreQuery::FindUserByUsername { username: String::from("alice") }, 0) {
        StoreReply::User(Some(found)) => {
            assert_eq!(found.id, vec![1u8; 16]);
            assert_eq!(found.password_hash, "hash-of-alice");
        }
        other => panic!("unexpected reply {:?}", other),
    }
}

#[test]
fn articles_get_ascending_ids_and_the_time_of_creation() {
    let mut store = MemoryStore::new();
    assert!(matches!(store.execute(insert(1, "a", true), 100), StoreReply::Done { rows_affected: 1 }));
    assert!(matches!(store.execute(insert(1, "b", false), 200), StoreReply::Done { rows_affected: 1 }));
    let a = find(&mut store, "a").unwrap();
    let b = find(&mut store, "b").unwrap();
    assert_eq!((a.id, a.is_public, a.created_at, a.updated_at), (1, 1, 100, 100));
    assert_eq!((b.id, b.is_public, b.created_at, b.updated_at), (2, 0, 200, 200));
    assert_eq!(a.author_id, vec![1u8; 16]);
    assert_eq!(a.title, "title of a");
    assert_eq!(a.content, "content of a");
}

#[test]
fn slugs_are_unique() {
    let mut store = MemoryStore::new();
    assert!(matches!(store.execute(insert(1, "a", true), 100), StoreReply::Done { .. }));
    assert!(matches!(store.execute(insert(2, "a", true), 100), StoreReply::UniqueViolation));
    assert_eq!(find(&mut store, "a").unwrap().author_id, vec![1u8; 16]);
    assert!(matches!(store.execute(insert(2, "b", true), 100), StoreReply::Done { .. }));
    assert_eq!(find(&mut store, "b").unwrap().id, 2);
}

#[test]
fn listing_is_scoped_and_newest_first() {
    let mut store = MemoryStore::new();
    store.execute(insert(1, "first", true), 100);
    store.execute(insert(2, "foreign", true), 150);
    store.execute(insert(1, "third", false), 300);
    store.execute(insert(1, "second", true), 200);
    store.execute(insert(1, "third-too", true), 300);
    assert_eq!(list(&mut store, 1), vec!["third-too", "third", "second", "first"]);
    assert_eq!(list(&mut store, 2), vec!["foreign"]);
    assert!(list(&mut store, 3).is_empty());
}

#[test]
fn update_merges_the_fields_that_are_set() {
    let mut store = MemoryStore::new();
    store.execute(insert(1, "a", false), 100);
    let reply = store.execute(
        StoreQuery::UpdateArticleFields {
            id: 1,
            title: Some(String::from("new title")),
            content: None,
            is_public: Some(true),
        },
        500,
    );
    assert!(matches!(reply, StoreReply::Done { rows_affected: 1 }));
    let a = find(&mut store, "a").unwrap();
    assert_eq!(a.title, "new title");
    assert_eq!(a.content, "content of a");
    assert_eq!(a.is_public, 1);
    assert_eq!((a.id, a.created_at, a.updated_at), (1, 100, 500));
    assert_eq!(a.author_id, vec![1u8; 16]);
    let reply = store.execute(
        StoreQuery::UpdateArticleFields { id: 1, title: None, content: None, is_public: Some(false) },
        600,
    );
    assert!(matches!(reply, StoreReply::Done { rows_affected: 1 }));
    let a = find(&mut store, "a").unwrap();
    assert_eq!((a.title.as_str(), a.is_public, a.updated_at), ("new title", 0, 600));
}

#[test]
fn update_of_an_absent_article_touches_nothing() {
    let mut store = MemoryStore::new();
    store.execute(insert(1, "a", false), 100);
    let reply = store.execute(
        StoreQuery::UpdateArticleFields { id: 2, title: Some(String::from("x")), content: None, is_public: None },
        500,
    );
    assert!(matches!(reply, StoreReply::Done { rows_affected: 0 }));
    assert_eq!(find(&mut store, "a").unwrap().title, "title of a");
}

#[test]
fn delete_needs_id_and_owner() {
    let mut store = MemoryStore::new();
    store.execute(insert(1, "a", false), 100);
    store.execute(insert(1, "b", false), 100);
    assert!(matches!(
        store.execute(StoreQuery::DeleteArticleByIdAndOwner { id: 1, owner: vec![2u8; 16] }, 0),
        StoreReply::Done { rows_affected: 0 }
    ));
    assert!(matches!(
        store.execute(StoreQuery::DeleteArticleByIdAndOwner { id: 3, owner: vec![1u8; 16] }, 0),
        StoreReply::Done { rows_affected: 0 }
    ));
    assert_eq!(list(&mut store, 1), vec!["b", "a"]);
    assert!(matches!(
        store.execute(StoreQuery::DeleteArticleByIdAndOwner { id: 1, owner: vec![1u8; 16] }, 0),
        StoreReply::Done { rows_affected: 1 }
    ));
    assert_eq!(list(&mut store, 1), vec!["b"]);
    assert!(find(&mut store, "a").is_none());
    assert!(matches!(store.execute(insert(1, "c", false), 100), StoreReply::Done { .. }));
    assert_eq!(find(&mut store, "c").unwrap().id, 3);
}

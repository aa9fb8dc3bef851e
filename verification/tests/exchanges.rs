use article_recorder::handlers::article::{
    create_article, delete_article, get_article_by_slug, list_user_articles, update_article,
};
use article_recorder::handlers::auth::{login, register, registration};
use article_recorder::handlers::Outcome;
use article_recorder::middleware::auth::{accept_bearer, require_bearer, Claims};
use article_recorder::models::article::{Article, CreateArticleRequest, UpdateArticleRequest};
use article_recorder::models::user::{LoginRequest, RegisterRequest};
use article_recorder::store::memory::MemoryStore;
use article_recorder::store::{StoreQuery, StoreReply};

const SECRET: &[u8] = b"exchange-secret";
const X: &str = "aaaaaaaa-aaaa-aaaa-aaaa-aaaaaaaaaaaa";
const Y: &str = "bbbbbbbb-bbbb-bbbb-bbbb-bbbbbbbbbbbb";
const HASH_OF_PASSWORD: &str = "$2a$04$UuTkLRZZ6QofpDOlMz32MuuxEHA43WOemOYHPz6.SjsVsyO1tDU96";

fn claims(sub: &str) -> Claims {
    Claims { sub: String::from(sub), exp: i64::MAX }
}

fn create(store: &mut MemoryStore, owner: &str, slug: &str, is_public: bool, now: i64) -> Outcome {
    let payload = CreateArticleRequest {
        slug: String::from(slug),
        title: format!("title of {}", slug),
        content: format!("content of {}", slug),
        is_public,
    };
    store.serve(create_article(&claims(owner), payload), SECRET, now)
}

fn by_slug(store: &mut MemoryStore, caller: Option<Claims>, slug: &str) -> Outcome {
    store.serve(get_article_by_slug(caller, String::from(slug)), SECRET, 0)
}

fn stored(store: &mut MemoryStore, slug: &str) -> Article {
    match store.execute(StoreQuery::FindArticleBySlug { slug: String::from(slug) }, 0) {
        StoreReply::Article(Some(a)) => a,
        other => panic!("unexpected reply {:?}", other),
    }
}

fn enrol(store: &mut MemoryStore, username: &str, id: u8) -> Outcome {
    let step = registration(String::from(username), vec![id; 16], Some(String::from(HASH_OF_PASSWORD)));
    store.serve(step, SECRET, 0)
}

fn sign_in(store: &mut MemoryStore, username: &str, password: &str, now: i64) -> Outcome {
    let payload = LoginRequest { username: String::from(username), password: String::from(password) };
    store.serve(login(payload), SECRET, now)
}

#[test]
fn registered_user_logs_in_and_reads_a_private_article_of_their_own() {
    let mut store = MemoryStore::new();
    let registered = store.serve(
        register(RegisterRequest { username: String::from("alice"), password: String::from("pw1") }),
        SECRET,
        1_000,
    );
    assert!(matches!(registered, Outcome::Created));
    let token = match sign_in(&mut store, "alice", "pw1", 2_000) {
        Outcome::Token(response) => response.token,
        other => panic!("unexpected outcome {:?}", other),
    };
    let header = format!("Bearer {}", token);
    let subject = require_bearer(Some(&header), SECRET, 3_000).unwrap();
    assert_eq!(subject.exp, 2_000 + 86_400);
    assert!(matches!(create(&mut store, &subject.sub, "s1", false, 3_000), Outcome::Created));
    assert!(matches!(by_slug(&mut store, None, "s1"), Outcome::NotFound));
    let caller = accept_bearer(Some(&header), SECRET, 4_000);
    assert!(caller.is_some());
    match by_slug(&mut store, caller, "s1") {
        Outcome::Article(a) => {
            assert_eq!(a.slug, "s1");
            assert_eq!(a.title, "title of s1");
            assert_eq!(a.is_public, 0);
            assert_eq!(a.created_at, 3_000);
        }
        other => panic!("unexpected outcome {:?}", other),
    }
}

#[test]
fn public_article_is_visible_to_anonymous() {
    let mut store = MemoryStore::new();
    assert!(matches!(create(&mut store, X, "s2", true, 10), Outcome::Created));
    match by_slug(&mut store, None, "s2") {
        Outcome::Article(a) => {
            assert_eq!(a.slug, "s2");
            assert_eq!(a.author_id, vec![0xaa; 16]);
            assert_eq!(a.is_public, 1);
        }
        other => panic!("unexpected outcome {:?}", other),
    }
    assert!(matches!(by_slug(&mut store, Some(claims(Y)), "s2"), Outcome::Article(_)));
}

#[test]
fn delete_by_another_user_is_not_found() {
    let mut store = MemoryStore::new();
    assert!(matches!(create(&mut store, X, "s3", true, 10), Outcome::Created));
    let id = stored(&mut store, "s3").id;
    let outcome = store.serve(delete_article(&claims(Y), id), SECRET, 20);
    assert!(matches!(outcome, Outcome::NotFound));
    assert_eq!(stored(&mut store, "s3").id, id);
    let outcome = store.serve(delete_article(&claims(X), id), SECRET, 30);
    assert!(matches!(outcome, Outcome::Deleted));
    assert!(matches!(by_slug(&mut store, Some(claims(X)), "s3"), Outcome::NotFound));
    let outcome = store.serve(delete_article(&claims(X), id), SECRET, 40);
    assert!(matches!(outcome, Outcome::NotFound));
}

#[test]
fn update_of_an_absent_article_is_not_found_and_of_a_foreign_one_forbidden() {
    let mut store = MemoryStore::new();
    let nothing = UpdateArticleRequest { title: None, content: None, is_public: None };
    let outcome = store.serve(update_article(&claims(X), 77, nothing), SECRET, 5);
    assert!(matches!(outcome, Outcome::NotFound));
    assert!(matches!(create(&mut store, X, "s4", false, 10), Outcome::Created));
    let before = stored(&mut store, "s4");
    let patch = UpdateArticleRequest { title: Some(String::from("x")), content: None, is_public: None };
    let outcome = store.serve(update_article(&claims(Y), before.id, patch), SECRET, 20);
    assert!(matches!(outcome, Outcome::Forbidden));
    let after = stored(&mut store, "s4");
    assert_eq!(format!("{:?}", after), format!("{:?}", before));
    assert_eq!(after.title, "title of s4");
    assert_eq!(after.updated_at, 10);
}

#[test]
fn owner_update_merges_and_keeps_the_owner() {
    let mut store = MemoryStore::new();
    assert!(matches!(create(&mut store, X, "s5", false, 10), Outcome::Created));
    let id = stored(&mut store, "s5").id;
    let patch = UpdateArticleRequest {
        title: None,
        content: Some(String::from("rewritten")),
        is_public: Some(true),
    };
    let outcome = store.serve(update_article(&claims(X), id, patch), SECRET, 50);
    assert!(matches!(outcome, Outcome::Updated));
    let a = stored(&mut store, "s5");
    assert_eq!(a.title, "title of s5");
    assert_eq!(a.content, "rewritten");
    assert_eq!(a.is_public, 1);
    assert_eq!(a.author_id, vec![0xaa; 16]);
    assert_eq!((a.created_at, a.updated_at), (10, 50));
    assert!(matches!(by_slug(&mut store, None, "s5"), Outcome::Article(_)));
}

#[test]
fn second_registration_under_one_username_conflicts() {
    let mut store = MemoryStore::new();
    assert!(matches!(enrol(&mut store, "alice", 1), Outcome::Created));
    assert!(matches!(enrol(&mut store, "alice", 2), Outcome::Conflict));
    assert!(matches!(enrol(&mut store, "bob", 3), Outcome::Created));
    match store.execute(StoreQuery::FindUserByUsername { username: String::from("alice") }, 0) {
        StoreReply::User(Some(user)) => assert_eq!(user.id, vec![1u8; 16]),
        other => panic!("unexpected reply {:?}", other),
    }
    match sign_in(&mut store, "alice", "password", 0) {
        Outcome::Token(response) => {
            let read = article_recorder::token::verify(&response.token, SECRET, 0).unwrap();
            assert_eq!(read.sub, "01010101-0101-0101-0101-010101010101");
        }
        other => panic!("unexpected outcome {:?}", other),
    }
}

#[test]
fn login_tells_nothing_about_which_part_failed() {
    let mut store = MemoryStore::new();
    assert!(matches!(enrol(&mut store, "alice", 1), Outcome::Created));
    let ghost = sign_in(&mut store, "ghost", "password", 0);
    let wrong = sign_in(&mut store, "alice", "wrong", 0);
    assert!(matches!(ghost, Outcome::Unauthorized));
    assert!(matches!(wrong, Outcome::Unauthorized));
    assert!(matches!(sign_in(&mut store, "Alice", "password", 0), Outcome::Unauthorized));
    assert!(matches!(sign_in(&mut store, "alice", "password", 0), Outcome::Token(_)));
}

#[test]
fn slug_collision_on_create_is_a_fault() {
    let mut store = MemoryStore::new();
    assert!(matches!(create(&mut store, X, "same", true, 10), Outcome::Created));
    assert!(matches!(create(&mut store, Y, "same", true, 20), Outcome::Fault));
    assert!(matches!(create(&mut store, X, "same", false, 30), Outcome::Fault));
    assert_eq!(stored(&mut store, "same").author_id, vec![0xaa; 16]);
}

#[test]
fn listing_returns_the_callers_articles_newest_first() {
    let mut store = MemoryStore::new();
    create(&mut store, X, "x1", true, 10);
    create(&mut store, Y, "y1", true, 20);
    create(&mut store, X, "x2", false, 30);
    create(&mut store, X, "x3", true, 25);
    match store.serve(list_user_articles(&claims(X)), SECRET, 100) {
        Outcome::Articles(list) => {
            let slugs: Vec<&str> = list.iter().map(|a| a.slug.as_str()).collect();
            assert_eq!(slugs, vec!["x2", "x3", "x1"]);
            assert!(list.iter().all(|a| a.author_id == vec![0xaa; 16]));
        }
        other => panic!("unexpected outcome {:?}", other),
    }
    match store.serve(list_user_articles(&claims(Y)), SECRET, 100) {
        Outcome::Articles(list) => assert_eq!(list.len(), 1),
        other => panic!("unexpected outcome {:?}", other),
    }
    assert!(matches!(
        store.serve(list_user_articles(&claims("nobody")), SECRET, 100),
        Outcome::Unauthenticated
    ));
}

use article_recorder::clock::unix_now;
use article_recorder::middleware::auth::{
    accept_bearer, auth_middleware, bearer_token, optional_auth_middleware, require_bearer,
    Unauthenticated,
};
use article_recorder::token::issue;

const SECRET: &[u8] = b"gate-secret";

fn token_until(exp: i64) -> String {
    issue(&[7u8; 16], exp - 1_000, 1_000, SECRET).unwrap()
}

#[test]
fn bearer_token_is_what_follows_the_scheme() {
    assert_eq!(bearer_token("Bearer abc.def.ghi"), Some("abc.def.ghi"));
    assert_eq!(bearer_token("Bearer "), Some(""));
    assert_eq!(bearer_token("Bearer  x"), Some(" x"));
}

#[test]
fn other_header_values_carry_no_bearer_token() {
    for header in ["", "Bearer", "bearer abc", "BEARER abc", "Basic abc", " Bearer abc", "Bearerabc"] {
        assert_eq!(bearer_token(header), None, "found one in {:?}", header);
    }
}

#[test]
fn mandatory_gate_admits_a_valid_token() {
    let header = format!("Bearer {}", token_until(5_000));
    let claims = require_bearer(Some(&header), SECRET, 4_999).unwrap();
    assert_eq!(claims.sub, "07070707-0707-0707-0707-070707070707");
    assert_eq!(claims.exp, 5_000);
}

#[test]
fn mandatory_gate_refuses_a_missing_header() {
    assert_eq!(require_bearer(None, SECRET, 0).unwrap_err(), Unauthenticated);
}

#[test]
fn mandatory_gate_refuses_a_header_without_scheme() {
    let token = token_until(5_000);
    assert!(require_bearer(Some(&token), SECRET, 0).is_err());
    let basic = format!("Basic {}", token);
    assert!(require_bearer(Some(&basic), SECRET, 0).is_err());
}

#[test]
fn mandatory_gate_refuses_an_invalid_token() {
    let header = format!("Bearer {}", token_until(5_000));
    assert!(require_bearer(Some(&header), SECRET, 5_000).is_err());
    assert!(require_bearer(Some(&header), b"other", 0).is_err());
    assert!(require_bearer(Some("Bearer garbage"), SECRET, 0).is_err());
}

#[test]
fn optional_gate_never_refuses() {
    let header = format!("Bearer {}", token_until(5_000));
    assert_eq!(accept_bearer(Some(&header), SECRET, 4_000).unwrap().exp, 5_000);
    assert!(accept_bearer(Some(&header), SECRET, 5_000).is_none());
    assert!(accept_bearer(Some("Bearer garbage"), SECRET, 0).is_none());
    assert!(accept_bearer(Some("garbage"), SECRET, 0).is_none());
    assert!(accept_bearer(None, SECRET, 0).is_none());
}

#[test]
fn gates_at_the_time_of_the_call() {
    let now = unix_now();
    let fresh = format!("Bearer {}", issue(&[7u8; 16], 3_600, now, SECRET).unwrap());
    let stale = format!("Bearer {}", issue(&[7u8; 16], 3_600, now - 7_200, SECRET).unwrap());
    assert_eq!(auth_middleware(Some(&fresh), SECRET).unwrap().exp, now + 3_600);
    assert!(auth_middleware(Some(&stale), SECRET).is_err());
    assert!(auth_middleware(None, SECRET).is_err());
    assert_eq!(optional_auth_middleware(Some(&fresh), SECRET).unwrap().exp, now + 3_600);
    assert!(optional_auth_middleware(Some(&stale), SECRET).is_none());
    assert!(optional_auth_middleware(None, SECRET).is_none());
}

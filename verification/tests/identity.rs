use article_recorder::clock::{unix_now, SECONDS_PER_DAY};
use article_recorder::identity::{new_identity, parse_identity, IDENTITY_LEN};
use article_recorder::password::{hash_password, password_matches, HASH_COST};

#[test]
fn parses_the_canonical_form() {
    assert_eq!(
        parse_identity("550e8400-e29b-41d4-a716-446655440000"),
        Some(vec![
            0x55, 0x0e, 0x84, 0x00, 0xe2, 0x9b, 0x41, 0xd4, 0xa7, 0x16, 0x44, 0x66, 0x55, 0x44,
            0x00, 0x00
        ])
    );
}

#[test]
fn parses_upper_case_and_unhyphenated_forms() {
    let expected = parse_identity("550e8400-e29b-41d4-a716-446655440000");
    assert_eq!(parse_identity("550E8400-E29B-41D4-A716-446655440000"), expected);
    assert_eq!(parse_identity("550e8400e29b41d4a716446655440000"), expected);
}

#[test]
fn rejects_what_is_no_identity() {
    for text in ["", "alice", "550e8400-e29b-41d4-a716-44665544000", "550e8400-e29b-41d4-a716-44665544000g"] {
        assert_eq!(parse_identity(text), None, "parsed {:?}", text);
    }
}

#[test]
fn fresh_identities_have_sixteen_bytes_and_differ() {
    let a = new_identity();
    let b = new_identity();
    assert_eq!(a.len(), IDENTITY_LEN);
    assert_eq!(b.len(), 16);
    assert_ne!(a, b);
}

#[test]
fn clock_reads_a_present_day_time() {
    let now = unix_now();
    assert!(now > 1_700_000_000);
    assert!(unix_now() >= now);
    assert!(now / SECONDS_PER_DAY <= i64::from(i32::MAX));
    assert!(now.checked_add(86_400).is_some());
}

#[test]
fn known_hash_accepts_its_password_only() {
    let hash = "$2b$04$EGdrhbKUv8Oc9vGiXX0HQOxSg445d458Muh7DAHskb6QbtCvdxcie";
    assert!(password_matches("correctbatteryhorsestapler", hash));
    assert!(!password_matches("wrong", hash));
    assert!(!password_matches("", hash));
}

#[test]
fn unreadable_hash_accepts_nothing() {
    assert!(!password_matches("pw", ""));
    assert!(!password_matches("pw", "pw"));
    assert!(!password_matches("pw", "$2b$04$tooshort"));
}

#[test]
fn fresh_hash_accepts_its_password() {
    assert_eq!(HASH_COST, 12);
    assert_eq!(HASH_COST, bcrypt::DEFAULT_COST);
    let hash = hash_password("pw1").unwrap();
    assert_ne!(hash, "pw1");
    assert!(hash.starts_with("$2b$12$"));
    assert_eq!(hash.len(), 60);
    assert!(password_matches("pw1", &hash));
}

use authgate::password::{hash_password, verify_password};
use authgate::secret::{encode_secret, new_secret};
use authgate::token::{issue_token, issue_token_with_subject, verify_token, SESSION_LIFETIME_SECS};
use authgate::transport::{build_cookie, Config, COOKIE_NAME};
use authgate::validate::{is_space, is_valid_field};
use authgate::AuthError;

const KEY: &str = "c2VjcmV0LWtleS1mb3ItdGVzdHMtb25seS0xMjM0NTY=";
const NOW: u64 = 1_700_000_000;

#[test]
fn field_rules() {
    assert!(is_valid_field("alice"));
    assert!(is_valid_field("pw1"));
    assert!(!is_valid_field(""));
    assert!(!is_valid_field("al ice"));
    assert!(!is_valid_field("tab\there"));
    assert!(!is_valid_field("line\n"));
    assert!(!is_valid_field("wide\u{3000}space"));
    assert!(is_valid_field("sym!@#\"\\"));
}

#[test]
fn space_characters() {
    assert!(is_space(' '));
    assert!(is_space('\u{a0}'));
    assert!(is_space('\u{2009}'));
    assert!(!is_space('a'));
    assert!(!is_space('\u{200b}'));
}

#[test]
fn hash_then_verify_accepts_same_password() {
    let h = hash_password("correct-horse").unwrap();
    assert!(h.starts_with("$argon2id$"));
    assert_eq!(verify_password("correct-horse", &h), Ok(true));
    assert_eq!(verify_password("battery-staple", &h), Ok(false));
}

#[test]
fn hashing_twice_gives_different_strings() {
    let a = hash_password("pw1").unwrap();
    let b = hash_password("pw1").unwrap();
    assert_ne!(a, b);
    assert_eq!(verify_password("pw1", &a), Ok(true));
    assert_eq!(verify_password("pw1", &b), Ok(true));
}

#[test]
fn malformed_hash_is_an_error() {
    assert_eq!(verify_password("pw", "not a hash"), Err(AuthError::MalformedHash));
    assert_eq!(verify_password("pw", ""), Err(AuthError::MalformedHash));
}

#[test]
fn issued_token_verifies_within_lifetime() {
    let t = issue_token("alice", KEY, NOW);
    let c = verify_token(&t, KEY, NOW).unwrap();
    assert_eq!(c.username, "alice");
    assert_eq!(c.expires_at, NOW + 604800);
    assert_eq!(c.subject.len(), 36);
    let later = verify_token(&t, KEY, NOW + SESSION_LIFETIME_SECS).unwrap();
    assert_eq!(later.username, "alice");
}

#[test]
fn token_expires_after_seven_days() {
    let t = issue_token("alice", KEY, NOW);
    assert!(verify_token(&t, KEY, NOW + SESSION_LIFETIME_SECS + 1).is_none());
    assert!(verify_token(&t, KEY, NOW + 8 * 24 * 3600).is_none());
}

#[test]
fn tampered_token_is_rejected() {
    let t = issue_token("alice", KEY, NOW);
    let bytes = t.as_bytes();
    for i in 0..bytes.len() {
        let mut b = bytes.to_vec();
        b[i] = if b[i] == b'A' { b'B' } else { b'A' };
        let s = String::from_utf8(b).unwrap();
        assert!(verify_token(&s, KEY, NOW).is_none(), "byte {} changed", i);
    }
}

#[test]
fn token_under_other_key_is_rejected() {
    let t = issue_token("alice", KEY, NOW);
    assert!(verify_token(&t, "another-key", NOW).is_none());
    assert!(verify_token("garbage", KEY, NOW).is_none());
    assert!(verify_token("", KEY, NOW).is_none());
}

#[test]
fn fixed_subject_gives_same_token() {
    let sub = "123e4567-e89b-12d3-a456-426614174000";
    let a = issue_token_with_subject("bob", sub, KEY, NOW);
    let b = issue_token_with_subject("bob", sub, KEY, NOW);
    assert_eq!(a, b);
    assert_eq!(a.split('.').count(), 3);
    let c = verify_token(&a, KEY, NOW).unwrap();
    assert_eq!(c.subject, sub);
    assert_eq!(c.username, "bob");
}

#[test]
fn fresh_subjects_differ() {
    let a = issue_token("alice", KEY, NOW);
    let b = issue_token("alice", KEY, NOW);
    assert_ne!(a, b);
    let sa = verify_token(&a, KEY, NOW).unwrap().subject;
    let sb = verify_token(&b, KEY, NOW).unwrap().subject;
    assert_ne!(sa, sb);
}

#[test]
fn cookie_attributes() {
    assert_eq!(COOKIE_NAME, "AuthToken");
    assert_eq!(
        build_cookie("abc.def.ghi", true),
        "AuthToken=abc.def.ghi; HttpOnly; SameSite=Strict; Secure; Path=/"
    );
    assert_eq!(
        build_cookie("abc.def.ghi", false),
        "AuthToken=abc.def.ghi; HttpOnly; SameSite=Strict; Path=/"
    );
}

#[test]
fn initial_config_is_secure() {
    assert!(Config::initial().secure_auth_cookie);
}

#[test]
fn secret_encoding() {
    assert_eq!(encode_secret(b"hello"), "aGVsbG8=");
    assert_eq!(encode_secret(&[0u8; 32]), format!("{}=", "A".repeat(43)));
    assert_eq!(encode_secret(&[]), "");
}

#[test]
fn new_secrets_are_fresh() {
    let a = new_secret();
    let b = new_secret();
    assert_eq!(a.len(), 44);
    assert_eq!(b.len(), 44);
    assert_ne!(a, b);
}

#[test]
fn space_agrees_with_std_whitespace() {
    for u in 0u32..=0x3100 {
        if let Some(c) = char::from_u32(u) {
            assert_eq!(is_space(c), c.is_whitespace(), "U+{:04X}", u);
        }
    }
    assert!(!is_space('\u{10ffff}'));
}

#[test]
fn other_password_does_not_verify() {
    let h = hash_password("q").unwrap();
    assert_eq!(verify_password("p", &h), Ok(false));
    assert_eq!(verify_password("q ", &h), Ok(false));
}

//! Signed, time-limited session tokens (HS256 JSON Web Tokens).
use std::collections::BTreeMap;
use vstd::prelude::*;


verus! {

/// How long a session lasts: seven days, in seconds.
pub const SESSION_LIFETIME_SECS: u64 = 604800;

/// The claims that a session token carries.
pub struct SessionClaims {
    /// A random identifier, fresh for each issued token.
    pub subject: String,
    /// The authenticated account.
    pub username: String,
    /// Seconds since the Unix epoch after which the token is no longer accepted.
    pub expires_at: u64,
}

impl View for SessionClaims {
    type V = (Seq<char>, Seq<char>, u64);

    open spec fn view(&self) -> Self::V {
        (self.subject@, self.username@, self.expires_at)
    }
}

/// The compact HS256 token that jsonwebtoken writes for the claims
/// (subject, username, expiry) under the key `key`.
pub uninterp spec fn jwt_hs256(subject: Seq<char>, username: Seq<char>, expires_at: u64, key: Seq<char>) -> Seq<char>;

/// The claims that jsonwebtoken reads from `token` after checking its HS256
/// signature under `key` (expiry not checked); `None` where it rejects the token.
pub uninterp spec fn jwt_hs256_claims(token: Seq<char>, key: Seq<char>) -> Option<(Seq<char>, Seq<char>, u64)>;

/// Relies on `jsonwebtoken::encode` with the default (HS256) header: the token
/// is a function of claims and key, and decoding it under the same key
/// gives the same claims back. With an HMAC key for an HMAC header, JSON
/// claims of strings and an integer, and HMAC signing, `encode` has no error path.
#[verifier::external_body]
fn jwt_encode(claims: &SessionClaims, key: &str) -> (r: String)
    ensures
        r@ == jwt_hs256(claims.subject@, claims.username@, claims.expires_at, key@),
        jwt_hs256_claims(r@, key@) == Some(claims@),
{
    let mut m = BTreeMap::new();
    m.insert("sub", serde_json::Value::from(claims.subject.as_str()));
    m.insert("un", serde_json::Value::from(claims.username.as_str()));
    m.insert("exp", serde_json::Value::from(claims.expires_at));
    let k = jsonwebtoken::EncodingKey::from_secret(key.as_bytes());
    jsonwebtoken::encode(&jsonwebtoken::Header::default(), &m, &k).expect("HS256 encoding")
}

/// Relies on `jsonwebtoken::decode` with HS256 validation and the expiry check
/// switched off: the claims are read only where the signature matches.
#[verifier::external_body]
fn jwt_decode(token: &str, key: &str) -> (r: Option<SessionClaims>)
    ensures
        r matches Some(c) ==> jwt_hs256_claims(token@, key@) == Some(c@),
        r is None ==> jwt_hs256_claims(token@, key@) is None,
{
    let mut v = jsonwebtoken::Validation::new(jsonwebtoken::Algorithm::HS256);
    v.validate_exp = false;
    let k = jsonwebtoken::DecodingKey::from_secret(key.as_bytes());
    let c = jsonwebtoken::decode::<BTreeMap<String, serde_json::Value>>(token, &k, &v).ok()?.claims;
    let subject = c.get("sub")?.as_str()?.to_string();
    let username = c.get("un")?.as_str()?.to_string();
    Some(SessionClaims { subject, username, expires_at: c.get("exp")?.as_u64()? })
}

/// Relies on `uuid::Uuid::new_v4` and its hyphenated text form (36 characters).
#[verifier::external_body]
fn new_subject() -> (r: String)
    ensures
        r@.len() == 36,
{
    uuid::Uuid::new_v4().to_string()
}

/// The claims of a token that carries a valid signature and has not expired at `now`.
pub open spec fn verified_claims(token: Seq<char>, key: Seq<char>, now: u64) -> Option<(Seq<char>, Seq<char>, u64)> {
    match jwt_hs256_claims(token, key) {
        Some(c) => if now <= c.2 { Some(c) } else { None },
        None => None,
    }
}

/// `token` was issued for `username` under `key` at time `issued_at`.
pub open spec fn issued_for(token: Seq<char>, username: Seq<char>, key: Seq<char>, issued_at: u64) -> bool {
    issued_at <= u64::MAX - SESSION_LIFETIME_SECS && exists|subject: Seq<char>|
        subject.len() == 36 && #[trigger] jwt_hs256(subject, username, (issued_at + SESSION_LIFETIME_SECS) as u64, key)
            == token && jwt_hs256_claims(token, key) == Some(
            (subject, username, (issued_at + SESSION_LIFETIME_SECS) as u64),
        )
}

/// Signs a token for `username` with the given subject, expiring seven days after `now`.
pub fn issue_token_with_subject(username: &str, subject: &str, key: &str, now: u64) -> (r: String)
    requires
        now <= u64::MAX - SESSION_LIFETIME_SECS,
    ensures
        r@ == jwt_hs256(subject@, username@, (now + SESSION_LIFETIME_SECS) as u64, key@),
        jwt_hs256_claims(r@, key@) == Some((subject@, username@, (now + SESSION_LIFETIME_SECS) as u64)),
{
    let claims = SessionClaims {
        subject: subject.to_owned(),
        username: username.to_owned(),
        expires_at: now + SESSION_LIFETIME_SECS,
    };
    jwt_encode(&claims, key)
}

/// Issues a session token for `username` with a fresh random subject,
/// expiring seven days after `now`.
pub fn issue_token(username: &str, key: &str, now: u64) -> (r: String)
    requires
        now <= u64::MAX - SESSION_LIFETIME_SECS,
    ensures
        issued_for(r@, username@, key@, now),
{
    let subject = new_subject();
    let r = issue_token_with_subject(username, subject.as_str(), key, now);
    assert(jwt_hs256(subject@, username@, (now + SESSION_LIFETIME_SECS) as u64, key@) == r@);
    r
}

/// Checks the signature of `token` under `key` and its expiry against `now`.
pub fn verify_token(token: &str, key: &str, now: u64) -> (r: Option<SessionClaims>)
    ensures
        r matches Some(c) ==> verified_claims(token@, key@, now) == Some(c@),
        r is None ==> verified_claims(token@, key@, now) is None,
{
    match jwt_decode(token, key) {
        Some(c) => {
            if now <= c.expires_at {
                Some(c)
            } else {
                None
            }
        },
        None => None,
    }
}

/// A token issued for `username` at `issued_at` is accepted, with that
/// username, until seven days have passed, and rejected afterwards.
pub proof fn lemma_session_lifetime(
    token: Seq<char>,
    username: Seq<char>,
    key: Seq<char>,
    issued_at: u64,
    now: u64,
)
    requires
        issued_for(token, username, key, issued_at),
    ensures
        now <= issued_at + SESSION_LIFETIME_SECS ==> (verified_claims(token, key, now) matches Some(c)
            && c.1 == username && c.2 == issued_at + SESSION_LIFETIME_SECS),
        now > issued_at + SESSION_LIFETIME_SECS ==> verified_claims(token, key, now) is None,
{
}

} // verus!

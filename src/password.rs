//! Salted, memory-hard password hashing (Argon2, PHC string format).
use argon2::password_hash::rand_core::OsRng;
use argon2::password_hash::{PasswordHasher, PasswordVerifier, SaltString};
use vstd::prelude::*;

use crate::AuthError;

verus! {

/// What Argon2 verification of `password` against the PHC string `phc` gives:
/// `None` where `phc` does not parse, else whether the password is accepted.
pub uninterp spec fn argon2_outcome(password: Seq<char>, phc: Seq<char>) -> Option<bool>;

/// Relies on `argon2::PasswordHash::new` to parse the PHC string and on
/// `Argon2::verify_password` to check the password against it.
#[verifier::external_body]
fn argon2_check(password: &str, phc: &str) -> (r: Option<bool>)
    ensures
        r == argon2_outcome(password@, phc@),
{
    match argon2::PasswordHash::new(phc) {
        Ok(h) => Some(argon2::Argon2::default().verify_password(password.as_bytes(), &h).is_ok()),
        Err(_) => None,
    }
}

/// Relies on `Argon2::hash_password` with a fresh `SaltString` drawn from `OsRng`:
/// the PHC string it returns verifies against the password it was given.
/// Its one error for these default parameters and a generated salt is a
/// password longer than `u32::MAX` bytes, which `hashable` passwords are not
/// (a character is at most four bytes of UTF-8).
#[verifier::external_body]
fn argon2_hash(password: &str) -> (r: Option<String>)
    ensures
        r matches Some(h) ==> argon2_outcome(password@, h@) == Some(true),
        hashable(password@) ==> r is Some,
{
    let salt = SaltString::generate(&mut OsRng);
    argon2::Argon2::default().hash_password(password.as_bytes(), &salt).ok().map(|h| h.to_string())
}

/// The longest password, in characters, that is sure to fit the hasher's
/// limit of `u32::MAX` bytes.
pub const MAX_PASSWORD_CHARS: usize = 0x3fff_ffff;

/// `password` is short enough for the hasher.
pub open spec fn hashable(password: Seq<char>) -> bool {
    password.len() <= MAX_PASSWORD_CHARS
}

/// `phc` is a hash string under which `password` verifies.
pub open spec fn hashes_to(password: Seq<char>, phc: Seq<char>) -> bool {
    argon2_outcome(password, phc) == Some(true)
}

/// What `verify_password` returns.
pub open spec fn verify_result(password: Seq<char>, phc: Seq<char>) -> Result<bool, AuthError> {
    match argon2_outcome(password, phc) {
        Some(b) => Ok(b),
        None => Err(AuthError::MalformedHash),
    }
}

/// Hashes `password` with a fresh random salt.
pub fn hash_password(password: &str) -> (r: Result<String, AuthError>)
    ensures
        r matches Ok(h) ==> hashes_to(password@, h@),
        r is Err ==> r == Err::<String, AuthError>(AuthError::HashFailure),
        hashable(password@) ==> r is Ok,
{
    match argon2_hash(password) {
        Some(h) => Ok(h),
        None => Err(AuthError::HashFailure),
    }
}

/// Checks `password` against the stored hash string `phc`.
/// A mismatch is `Ok(false)`; only an unparsable `phc` is an error.
pub fn verify_password(password: &str, phc: &str) -> (r: Result<bool, AuthError>)
    ensures
        r == verify_result(password@, phc@),
{
    match argon2_check(password, phc) {
        Some(b) => Ok(b),
        None => Err(AuthError::MalformedHash),
    }
}

/// A hash produced for a password verifies that password.
pub proof fn lemma_hash_then_verify(password: Seq<char>, phc: Seq<char>)
    requires
        hashes_to(password, phc),
    ensures
        verify_result(password, phc) == Ok::<bool, AuthError>(true),
{
}

} // verus!

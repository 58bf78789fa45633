//! A single-tenant credential store and session-authentication gate.
//!
//! The library decides; the hosting program reads and writes files, talks
//! HTTP and reads the clock, and hands the library plain values.
use vstd::prelude::*;

pub mod validate;
pub mod password;
pub mod token;
pub mod transport;
pub mod secret;
pub mod store;
pub mod gate;
pub mod reply;

verus! {

/// Why an authentication operation did not succeed.
#[derive(Debug, Clone, Copy, PartialEq, Eq, Structural)]
pub enum AuthError {
    /// A username or password is empty or contains whitespace.
    InvalidInput,
    /// The password and its confirmation differ.
    PasswordMismatch,
    /// An account is already registered.
    Conflict,
    /// The credentials were not accepted (deliberately uniform).
    Unauthorized,
    /// No account is registered.
    NotFound,
    /// A stored password hash could not be parsed.
    MalformedHash,
    /// The password hasher reported a failure.
    HashFailure,
}

impl AuthError {
    /// Whether this error is one of the input-validation errors.
    pub fn is_validation(&self) -> (r: bool)
        ensures
            r == (*self == AuthError::InvalidInput || *self == AuthError::PasswordMismatch),
    {
        match self {
            AuthError::InvalidInput => true,
            AuthError::PasswordMismatch => true,
            _ => false,
        }
    }
}

} // verus!

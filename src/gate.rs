//! Registration, login and the session check.
use vstd::prelude::*;
use vstd::string::*;

use crate::password::{hash_password, hashable, hashes_to, verify_password};
use crate::store::CredentialStore;
use crate::token::{
    issue_token, issued_for, lemma_session_lifetime, verified_claims, verify_token, SESSION_LIFETIME_SECS,
};
use crate::transport::{build_cookie, cookie_text};
use crate::validate::{is_valid_field, valid_field};
use crate::AuthError;

verus! {

/// `cookie` carries a session token issued for `username` under `key` at `now`.
pub open spec fn session_cookie(cookie: Seq<char>, username: Seq<char>, key: Seq<char>, now: u64, secure: bool) -> bool {
    exists|t: Seq<char>| cookie == #[trigger] cookie_text(t, secure) && issued_for(t, username, key, now)
}

/// Both fields of a credential pair satisfy the input rules.
pub open spec fn valid_pair(username: Seq<char>, password: Seq<char>) -> bool {
    valid_field(username) && valid_field(password)
}

/// Whether two strings hold the same characters.
fn same_text(a: &str, b: &str) -> (r: bool)
    ensures
        r == (a@ == b@),
{
    let n = a.unicode_len();
    if n != b.unicode_len() {
        return false;
    }
    let mut i: usize = 0;
    while i < n
        invariant
            n == a@.len(),
            n == b@.len(),
            i <= n,
            forall|j: int| 0 <= j < i ==> a@[j] == b@[j],
        decreases n - i,
    {
        if a.get_char(i) != b.get_char(i) {
            return false;
        }
        i = i + 1;
    }
    assert(a@ =~= b@);
    true
}

/// Issues a session for `username` and wraps it in the session cookie.
pub fn start_session(username: &str, key: &str, now: u64, secure: bool) -> (r: String)
    requires
        now <= u64::MAX - SESSION_LIFETIME_SECS,
    ensures
        session_cookie(r@, username@, key@, now, secure),
{
    let t = issue_token(username, key, now);
    let c = build_cookie(t.as_str(), secure);
    assert(c@ == cookie_text(t@, secure));
    c
}

/// The error that registration owes on these inputs, before any hashing:
/// `Conflict` where an account exists; else `InvalidInput` where a field is
/// empty or holds whitespace; else `PasswordMismatch` where the confirmation
/// differs; else none.
pub open spec fn registration_error(
    stored: Option<(Seq<char>, Seq<char>)>,
    username: Seq<char>,
    password: Seq<char>,
    confirm_password: Seq<char>,
) -> Option<AuthError> {
    if stored is Some {
        Some(AuthError::Conflict)
    } else if !valid_pair(username, password) {
        Some(AuthError::InvalidInput)
    } else if password != confirm_password {
        Some(AuthError::PasswordMismatch)
    } else {
        None
    }
}

/// Registers the single account and starts a session for it.
///
/// Fails with `registration_error` where there is one. Otherwise the password
/// is hashed, a session cookie is made and the account is stored; only the
/// hasher can still fail, and only for a password too long for it
/// (see `hashable`). The store changes only on success.
pub fn register(
    store: &mut CredentialStore,
    username: &str,
    password: &str,
    confirm_password: &str,
    key: &str,
    now: u64,
    secure: bool,
) -> (r: Result<String, AuthError>)
    requires
        now <= u64::MAX - SESSION_LIFETIME_SECS,
    ensures
        registration_error(old(store)@, username@, password@, confirm_password@) matches Some(e)
            ==> r == Err::<String, AuthError>(e),
        registration_error(old(store)@, username@, password@, confirm_password@) is None ==> (r is Ok
            || (r == Err::<String, AuthError>(AuthError::HashFailure) && !hashable(password@))),
        registration_error(old(store)@, username@, password@, confirm_password@) is None && hashable(
            password@,
        ) ==> r is Ok,
        r is Err ==> final(store)@ == old(store)@,
        r matches Ok(cookie) ==> (final(store)@ matches Some(c) && c.0 == username@ && hashes_to(
            password@,
            c.1,
        ) && session_cookie(cookie@, username@, key@, now, secure)),
{
    if store.is_registered() {
        return Err(AuthError::Conflict);
    }
    if !is_valid_field(username) || !is_valid_field(password) {
        return Err(AuthError::InvalidInput);
    }
    if !same_text(password, confirm_password) {
        return Err(AuthError::PasswordMismatch);
    }
    let hash = match hash_password(password) {
        Ok(h) => h,
        Err(e) => return Err(e),
    };
    let cookie = start_session(username, key, now, secure);
    match store.create(username, hash.as_str()) {
        Ok(()) => Ok(cookie),
        Err(e) => Err(e),
    }
}

/// The error that login owes on these inputs: `Unauthorized` where no
/// account exists; else `InvalidInput` where a field is empty or holds
/// whitespace; else `Unauthorized` alike for a wrong username, a wrong
/// password or an unreadable stored hash; else none.
pub open spec fn login_error(
    stored: Option<(Seq<char>, Seq<char>)>,
    username: Seq<char>,
    password: Seq<char>,
) -> Option<AuthError> {
    match stored {
        None => Some(AuthError::Unauthorized),
        Some(c) => if !valid_pair(username, password) {
            Some(AuthError::InvalidInput)
        } else if c.0 != username || !hashes_to(password, c.1) {
            Some(AuthError::Unauthorized)
        } else {
            None
        },
    }
}

/// Logs in to the registered account and starts a session for it.
/// Fails with `login_error` where there is one, and succeeds otherwise.
pub fn login(
    store: &CredentialStore,
    username: &str,
    password: &str,
    key: &str,
    now: u64,
    secure: bool,
) -> (r: Result<String, AuthError>)
    requires
        now <= u64::MAX - SESSION_LIFETIME_SECS,
    ensures
        login_error(store@, username@, password@) matches Some(e) ==> r == Err::<String, AuthError>(e),
        login_error(store@, username@, password@) is None ==> r is Ok,
        r matches Ok(cookie) ==> session_cookie(cookie@, username@, key@, now, secure),
{
    let cred = match store.load() {
        Ok(c) => c,
        Err(_) => return Err(AuthError::Unauthorized),
    };
    if !is_valid_field(username) || !is_valid_field(password) {
        return Err(AuthError::InvalidInput);
    }
    if !same_text(username, cred.username.as_str()) {
        return Err(AuthError::Unauthorized);
    }
    match verify_password(password, cred.password_hash.as_str()) {
        Ok(true) => {},
        _ => return Err(AuthError::Unauthorized),
    }
    Ok(start_session(username, key, now, secure))
}

/// Once an account is registered, every further registration fails with
/// `Conflict`, whatever its inputs.
pub proof fn lemma_single_tenant(
    stored: (Seq<char>, Seq<char>),
    username: Seq<char>,
    password: Seq<char>,
    confirm_password: Seq<char>,
)
    ensures
        registration_error(Some(stored), username, password, confirm_password) == Some(
            AuthError::Conflict,
        ),
{
}

/// A login with an unknown username and one with a wrong password are
/// rejected with the same error.
pub proof fn lemma_uniform_rejection(
    stored: (Seq<char>, Seq<char>),
    unknown_user: Seq<char>,
    any_password: Seq<char>,
    wrong_password: Seq<char>,
)
    requires
        valid_pair(unknown_user, any_password),
        valid_pair(stored.0, wrong_password),
        unknown_user != stored.0,
        !hashes_to(wrong_password, stored.1),
    ensures
        login_error(Some(stored), unknown_user, any_password) == login_error(
            Some(stored),
            stored.0,
            wrong_password,
        ),
        login_error(Some(stored), stored.0, wrong_password) == Some(AuthError::Unauthorized),
{
}

/// The token in a session cookie issued at `now` is accepted by `check`,
/// for the same username, at any time up to seven days later.
pub proof fn lemma_session_cookie_accepted(
    cookie: Seq<char>,
    username: Seq<char>,
    key: Seq<char>,
    now: u64,
    later: u64,
    secure: bool,
)
    requires
        session_cookie(cookie, username, key, now, secure),
        later <= now + SESSION_LIFETIME_SECS,
    ensures
        exists|t: Seq<char>| #[trigger] cookie_text(t, secure) == cookie && (verified_claims(t, key, later) matches Some(c) && c.1 == username),
{
    let t = choose|t: Seq<char>| cookie == #[trigger] cookie_text(t, secure) && issued_for(t, username, key, now);
    lemma_session_lifetime(t, username, key, now, later);
}

/// Whether a request that presents `token` (if any) is authenticated:
/// the token is present, correctly signed under `key` and not expired at `now`.
pub fn check(token: Option<&str>, key: &str, now: u64) -> (r: bool)
    ensures
        r == (token matches Some(t) && verified_claims(t@, key@, now) is Some),
{
    match token {
        Some(t) => verify_token(t, key, now).is_some(),
        None => false,
    }
}

} // verus!

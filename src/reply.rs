//! What each page answers, as plain values; the hosting program renders them.
use vstd::prelude::*;

use crate::AuthError;

verus! {

/// The places a reply can send the browser to.
#[derive(Debug, Clone, Copy, PartialEq, Eq, Structural)]
pub enum Place {
    /// The protected application page, `/`.
    Home,
    /// The login form, `/login`.
    Login,
    /// The registration form, `/login/create`.
    CreateLogin,
}

/// The answer to a request.
#[derive(Debug, PartialEq, Eq)]
pub enum Reply {
    /// `303 See Other` to a place.
    Redirect(Place),
    /// `200 OK` with the page of a place.
    Page(Place),
    /// `200 OK` with a short message for the form.
    Message(String),
    /// `401 Unauthorized`, empty body.
    Unauthorized,
    /// A login succeeded: `200 OK`, set the session cookie and send the browser home.
    Session(String),
    /// A registration succeeded: `303 See Other`, set the session cookie and
    /// send the browser home.
    Registered(String),
    /// The operation failed for a reason that is not the user's.
    Failure,
}

/// The message shown for fields that are empty or hold whitespace.
pub open spec fn invalid_input_text() -> Seq<char> {
    "<p>Username and password cannot be empty or contain spaces</p>"@
}

/// The message shown when the password confirmation differs.
pub open spec fn mismatch_text() -> Seq<char> {
    "<p>Passwords do not match</p>"@
}

/// The message shown for any rejected login.
pub open spec fn rejected_text() -> Seq<char> {
    "Invalid login"@
}

/// `r` is a message reply with the text `text`.
pub open spec fn is_message(r: Reply, text: Seq<char>) -> bool {
    match r {
        Reply::Message(m) => m@ == text,
        _ => false,
    }
}

impl Place {
    /// The URL path of the place.
    pub fn path(&self) -> (r: &'static str)
        ensures
            *self == Place::Home ==> r@ == "/"@,
            *self == Place::Login ==> r@ == "/login"@,
            *self == Place::CreateLogin ==> r@ == "/login/create"@,
    {
        match self {
            Place::Home => "/",
            Place::Login => "/login",
            Place::CreateLogin => "/login/create",
        }
    }
}

/// `/`: the application for an authenticated request, else the login form.
pub fn home_reply(authenticated: bool) -> (r: Reply)
    ensures
        authenticated ==> r == Reply::Page(Place::Home),
        !authenticated ==> r == Reply::Redirect(Place::Login),
{
    if authenticated {
        Reply::Page(Place::Home)
    } else {
        Reply::Redirect(Place::Login)
    }
}

/// `GET /login`: the form once an account exists, else registration.
pub fn login_page_reply(registered: bool) -> (r: Reply)
    ensures
        registered ==> r == Reply::Page(Place::Login),
        !registered ==> r == Reply::Redirect(Place::CreateLogin),
{
    if registered {
        Reply::Page(Place::Login)
    } else {
        Reply::Redirect(Place::CreateLogin)
    }
}

/// `GET /login/create`: the form while no account exists, else the login form.
pub fn create_page_reply(registered: bool) -> (r: Reply)
    ensures
        registered ==> r == Reply::Redirect(Place::Login),
        !registered ==> r == Reply::Page(Place::CreateLogin),
{
    if registered {
        Reply::Redirect(Place::Login)
    } else {
        Reply::Page(Place::CreateLogin)
    }
}

/// `r` is the reply to the rejection `e`: `Conflict`, and `Unauthorized`
/// where no account is `registered`, are `401`; the input errors and a
/// rejected login are messages for the form; the rest are failures.
pub open spec fn rejection_reply(registered: bool, e: AuthError, r: Reply) -> bool {
    match e {
        AuthError::InvalidInput => is_message(r, invalid_input_text()),
        AuthError::PasswordMismatch => is_message(r, mismatch_text()),
        AuthError::Unauthorized => if registered {
            is_message(r, rejected_text())
        } else {
            r == Reply::Unauthorized
        },
        AuthError::Conflict => r == Reply::Unauthorized,
        _ => r == Reply::Failure,
    }
}

/// The reply for the outcome of a login attempt.
pub fn outcome_reply(registered: bool, outcome: Result<String, AuthError>) -> (r: Reply)
    ensures
        outcome matches Ok(c) ==> r == Reply::Session(c),
        outcome matches Err(e) ==> rejection_reply(registered, e, r),
{
    match outcome {
        Ok(c) => Reply::Session(c),
        Err(AuthError::InvalidInput) => Reply::Message(
            "<p>Username and password cannot be empty or contain spaces</p>".to_owned(),
        ),
        Err(AuthError::PasswordMismatch) => Reply::Message("<p>Passwords do not match</p>".to_owned()),
        Err(AuthError::Unauthorized) => {
            if registered {
                Reply::Message("Invalid login".to_owned())
            } else {
                Reply::Unauthorized
            }
        },
        Err(AuthError::Conflict) => Reply::Unauthorized,
        Err(_) => Reply::Failure,
    }
}

/// The reply for the outcome of a registration attempt: as `outcome_reply`
/// for a rejection, `Registered` with the cookie on success.
pub fn registration_reply(outcome: Result<String, AuthError>) -> (r: Reply)
    ensures
        outcome matches Ok(c) ==> r == Reply::Registered(c),
        outcome matches Err(e) ==> rejection_reply(false, e, r),
{
    match outcome {
        Ok(c) => Reply::Registered(c),
        Err(e) => outcome_reply(false, Err(e)),
    }
}

} // verus!

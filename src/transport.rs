//! Carrying the session token in an HTTP cookie.
use axum_extra::extract::cookie::{Cookie, SameSite};
use vstd::prelude::*;

verus! {

/// The name of the session cookie.
pub const COOKIE_NAME: &'static str = "AuthToken";

/// Settings read afresh for each issued session.
pub struct Config {
    /// Whether the session cookie carries the `Secure` attribute.
    pub secure_auth_cookie: bool,
}

impl Config {
    /// The settings written on first start: secure cookies on.
    pub fn initial() -> (r: Config)
        ensures
            r.secure_auth_cookie,
    {
        Config { secure_auth_cookie: true }
    }
}

/// The `Set-Cookie` header value for a cookie `name=value`: path `/`,
/// HTTP only, `SameSite=Strict`, and `Secure` where `secure` holds.
pub open spec fn set_cookie_text(name: Seq<char>, value: Seq<char>, secure: bool) -> Seq<char> {
    name + "="@ + value + "; HttpOnly; SameSite=Strict"@ + (if secure {
        "; Secure"@
    } else {
        Seq::<char>::empty()
    }) + "; Path=/"@
}

/// Relies on the `Display` impl of `cookie::Cookie` (re-exported by axum-extra),
/// which writes `name=value` and then, in this order, `HttpOnly`, `SameSite`,
/// `Secure` and `Path`, without encoding the value.
#[verifier::external_body]
fn cookie_display(name: &str, value: &str, secure: bool) -> (r: String)
    ensures
        r@ == set_cookie_text(name@, value@, secure),
{
    Cookie::build((name.to_owned(), value.to_owned()))
        .path("/")
        .secure(secure)
        .http_only(true)
        .same_site(SameSite::Strict)
        .to_string()
}

/// The `Set-Cookie` header value that carries the session token `token`.
pub open spec fn cookie_text(token: Seq<char>, secure: bool) -> Seq<char> {
    set_cookie_text(COOKIE_NAME@, token, secure)
}

/// Builds the `Set-Cookie` header value that carries the session token.
pub fn build_cookie(token: &str, secure: bool) -> (r: String)
    ensures
        r@ == cookie_text(token@, secure),
{
    cookie_display(COOKIE_NAME, token, secure)
}

} // verus!

//! The authentication demo: a password kept in a cookie gates one route,
//! and an `x-api-key` header gates another. The decisions live here; the
//! front end only reads the cookie or header and hands the value over.

use vstd::prelude::*;

verus! {

/// Login request data.
pub struct AuthInfo {
    pub user_id: i32,
    pub password: String,
}

/// The password a session cookie must carry.
pub open spec fn expected_password() -> Seq<char> {
    "orange"@
}

/// The key the `x-api-key` header must carry.
pub open spec fn expected_api_key() -> Seq<char> {
    "not-orange"@
}

/// What a protected route answers for a given session cookie.
#[derive(Clone, Copy, Debug, PartialEq, Eq, Structural)]
pub enum SessionOutcome {
    Granted,
    InvalidPassword,
    NotLoggedIn,
}

/// A request's proof of knowing the API key: it can only be built by
/// `check_api_key`, from a header that carried the right value.
pub struct ApiKey(pub String);

/// Why an API key was refused.
#[derive(Clone, Copy, Debug, PartialEq, Eq, Structural)]
pub enum ApiKeyError {
    Missing,
    Invalid,
}

/// Whether two strings hold the same characters.
fn str_eq(a: &str, b: &str) -> (r: bool)
    ensures
        r == (a@ == b@),
{
    let left: String = a.to_owned();
    let right: String = b.to_owned();
    left == right
}

/// Whether a presented key is the expected API key.
pub fn is_valid(key: &str) -> (r: bool)
    ensures
        r == (key@ == expected_api_key()),
{
    str_eq(key, "not-orange")
}

/// Decides what a password-protected route answers: access is granted
/// exactly when the cookie is present and carries the expected password.
pub fn check_session(cookie: Option<&str>) -> (r: SessionOutcome)
    ensures
        match cookie {
            Some(p) => r == (if p@ == expected_password() {
                SessionOutcome::Granted
            } else {
                SessionOutcome::InvalidPassword
            }),
            None => r == SessionOutcome::NotLoggedIn,
        },
{
    match cookie {
        Some(p) => {
            if str_eq(p, "orange") {
                SessionOutcome::Granted
            } else {
                SessionOutcome::InvalidPassword
            }
        },
        None => SessionOutcome::NotLoggedIn,
    }
}

/// Decides whether a request carries the API key: the header must be
/// present and hold the expected value, which the returned `ApiKey` echoes.
pub fn check_api_key(header: Option<&str>) -> (r: Result<ApiKey, ApiKeyError>)
    ensures
        match header {
            Some(k) => if k@ == expected_api_key() {
                r matches Ok(a) && a.0@ == k@
            } else {
                r matches Err(e) && e == ApiKeyError::Invalid
            },
            None => r matches Err(e) && e == ApiKeyError::Missing,
        },
{
    match header {
        Some(k) => {
            if is_valid(k) {
                Ok(ApiKey(k.to_owned()))
            } else {
                Err(ApiKeyError::Invalid)
            }
        },
        None => Err(ApiKeyError::Missing),
    }
}

} // verus!

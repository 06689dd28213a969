//! API keys and the check of a bearer token.

use crate::text::str_eq;
use crate::utils::error::{answer, event_id_fits, ErrorPlan};
use vstd::prelude::*;

verus! {

/// An API key as it came with a request, and whether it is accepted.
#[derive(Clone, Debug)]
pub struct ApiKey {
    pub key: String,
    pub is_valid: bool,
}

/// The keys that are accepted.
pub open spec fn is_known_key(key: Seq<char>) -> bool {
    key == "sk-1234"@ || key == "sk-4321"@
}

impl ApiKey {
    /// The key `key`, marked valid when it is one of the accepted keys.
    pub fn new(key: String) -> (out: Self)
        ensures
            out.key@ == key@,
            out.is_valid == is_known_key(key@),
    {
        let is_valid = str_eq(key.as_str(), "sk-1234") || str_eq(key.as_str(), "sk-4321");
        ApiKey { key, is_valid }
    }

    /// Whether the key is accepted.
    pub fn is_valid(&self) -> (valid: bool)
        ensures
            valid == self.is_valid,
    {
        self.is_valid
    }

    /// The key itself.
    pub fn key(&self) -> (key: &str)
        ensures
            key@ == self.key@,
    {
        self.key.as_str()
    }
}

/// Why a request was not let in.
#[derive(Clone, Copy, Debug, PartialEq, Eq, Structural)]
pub enum AuthError {
    /// The request carried no bearer token.
    MissingToken,
    /// The bearer token is not an accepted key.
    InvalidKey,
}

impl AuthError {
    /// The message that answers the caller, with status 401.
    pub fn message(&self) -> (text: String)
        ensures
            text@ == match *self {
                AuthError::MissingToken => "Missing or invalid Authorization header. Please provide a valid Bearer token."@,
                AuthError::InvalidKey => "Invalid API key. Please check your Bearer token."@,
            },
    {
        match self {
            AuthError::MissingToken => String::from_str(
                "Missing or invalid Authorization header. Please provide a valid Bearer token.",
            ),
            AuthError::InvalidKey => String::from_str(
                "Invalid API key. Please check your Bearer token.",
            ),
        }
    }
}

impl AuthError {
    /// The answer to a request that is not let in: status 401.
    pub fn to_error(&self) -> (out: ErrorPlan)
        ensures
            out@ == answer(
                401,
                "authentication_error"@,
                None,
                match *self {
                    AuthError::MissingToken => "Missing or invalid Authorization header. Please provide a valid Bearer token."@,
                    AuthError::InvalidKey => "Invalid API key. Please check your Bearer token."@,
                },
                true,
            ),
            event_id_fits(out),
    {
        let message = self.message();
        ErrorPlan::unauthorized(message.as_str())
    }
}

/// What the contracts say of an optional token.
pub open spec fn token_view(token: Option<&str>) -> Option<Seq<char>> {
    match token {
        Some(t) => Some(t@),
        None => None,
    }
}

/// Who a request with the bearer token `token` is let in as.
pub open spec fn admitted(token: Option<Seq<char>>) -> Result<Seq<char>, AuthError> {
    match token {
        None => Err(AuthError::MissingToken),
        Some(key) => if is_known_key(key) {
            Ok(key)
        } else {
            Err(AuthError::InvalidKey)
        },
    }
}

/// Checks the bearer token of a request: a request without one, or with one
/// that is not an accepted key, is refused.
pub fn authenticate(token: Option<&str>) -> (out: Result<ApiKey, AuthError>)
    ensures
        match out {
            Ok(key) => admitted(token_view(token)) == Ok::<Seq<char>, AuthError>(key.key@)
                && key.is_valid,
            Err(e) => admitted(token_view(token)) == Err::<Seq<char>, AuthError>(e),
        },
{
    match token {
        None => Err(AuthError::MissingToken),
        Some(text) => {
            let key = ApiKey::new(String::from_str(text));
            if key.is_valid() {
                Ok(key)
            } else {
                Err(AuthError::InvalidKey)
            }
        },
    }
}

} // verus!

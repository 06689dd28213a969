//! The error answers of the API, by kind: status, type, code and message.
//!
//! The host adds what only it can: the JSON parameter and the encoding.

use crate::http::request_id::{fresh_type_id, has_type_id_shape, valid_type_prefix};
use crate::text::opt_text;
use vstd::prelude::*;

verus! {

/// An error answer before it is encoded.
#[derive(Debug)]
pub struct ErrorPlan {
    /// The identifier of the event, for errors of the server's own making.
    pub event_id: Option<String>,
    /// Whether the error is of the server's own making.
    pub is_sorai_error: bool,
    /// The HTTP status.
    pub status_code: u16,
    /// The type of the error.
    pub error_type: String,
    /// The code of the error, where it has one.
    pub code: Option<String>,
    /// The message for the caller.
    pub message: String,
    /// A hint for the caller, where there is one.
    pub hint: Option<String>,
}

/// What the contracts say of an error answer, its event identifier aside.
pub struct ErrorView {
    pub is_sorai_error: bool,
    pub status_code: u16,
    pub error_type: Seq<char>,
    pub code: Option<Seq<char>>,
    pub message: Seq<char>,
    pub hint: Option<Seq<char>>,
}

impl View for ErrorPlan {
    type V = ErrorView;

    open spec fn view(&self) -> ErrorView {
        ErrorView {
            is_sorai_error: self.is_sorai_error,
            status_code: self.status_code,
            error_type: self.error_type@,
            code: opt_text(self.code),
            message: self.message@,
            hint: opt_text(self.hint),
        }
    }
}

/// What the contracts say of an optional string slice.
pub open spec fn code_view(code: Option<&str>) -> Option<Seq<char>> {
    match code {
        Some(text) => Some(text@),
        None => None,
    }
}

/// An error of the server's own making carries an event identifier of the
/// shape `err_<26 characters>`; any other carries none.
pub open spec fn event_id_fits(plan: ErrorPlan) -> bool {
    if plan.is_sorai_error {
        plan.event_id is Some && has_type_id_shape("err"@, plan.event_id->0@)
    } else {
        plan.event_id is None
    }
}

/// The error answer of a kind: its status, type and code, and whether it is
/// of the server's own making.
pub open spec fn answer(
    status_code: u16,
    error_type: Seq<char>,
    code: Option<Seq<char>>,
    message: Seq<char>,
    is_sorai_error: bool,
) -> ErrorView {
    ErrorView { is_sorai_error, status_code, error_type, code, message, hint: None }
}

/// The hint that goes with a refused API key.
pub open spec fn api_key_hint() -> Seq<char> {
    "Please check your Bearer token format: 'Authorization: Bearer sk-xxxx'"@
}

impl ErrorPlan {
    /// An error answer from its parts. One of the server's own making draws
    /// a new event identifier.
    pub fn new(
        status_code: u16,
        error_type: &str,
        code: Option<&str>,
        message: &str,
        is_sorai_error: bool,
    ) -> (out: Self)
        ensures
            out@ == answer(status_code, error_type@, code_view(code), message@, is_sorai_error),
            event_id_fits(out),
    {
        let event_id = if is_sorai_error {
            proof {
                reveal_strlit("err");
                assert(valid_type_prefix("err"@));
            }
            fresh_type_id("err")
        } else {
            None
        };
        let code = match code {
            Some(text) => Some(String::from_str(text)),
            None => None,
        };
        ErrorPlan {
            event_id,
            is_sorai_error,
            status_code,
            error_type: String::from_str(error_type),
            code,
            message: String::from_str(message),
            hint: None,
        }
    }

    /// A request that lacks what it must hold: status 400.
    pub fn bad_request(message: &str) -> (out: Self)
        ensures
            out@ == answer(
                400,
                "invalid_request_error"@,
                Some("missing_required_parameter"@),
                message@,
                true,
            ),
            event_id_fits(out),
    {
        ErrorPlan::new(
            400,
            "invalid_request_error",
            Some("missing_required_parameter"),
            message,
            true,
        )
    }

    /// A request without a valid API key: status 401.
    pub fn unauthorized(message: &str) -> (out: Self)
        ensures
            out@ == answer(401, "authentication_error"@, None, message@, true),
            event_id_fits(out),
    {
        ErrorPlan::new(401, "authentication_error", None, message, true)
    }

    /// A request that its key does not allow: status 403.
    pub fn forbidden(message: &str) -> (out: Self)
        ensures
            out@ == answer(403, "authorization_error"@, Some("forbidden"@), message@, true),
            event_id_fits(out),
    {
        ErrorPlan::new(403, "authorization_error", Some("forbidden"), message, true)
    }

    /// Too many requests: status 429, not an error of the server's making.
    pub fn rate_limit_exceeded(message: &str) -> (out: Self)
        ensures
            out@ == answer(429, "rate_limit_error"@, None, message@, false),
            event_id_fits(out),
    {
        ErrorPlan::new(429, "rate_limit_error", None, message, false)
    }

    /// A failure inside the server: status 500.
    pub fn internal_server_error(message: &str) -> (out: Self)
        ensures
            out@ == answer(500, "api_error"@, None, message@, true),
            event_id_fits(out),
    {
        ErrorPlan::new(500, "api_error", None, message, true)
    }

    /// A provider that failed: status 502.
    pub fn bad_gateway(message: &str) -> (out: Self)
        ensures
            out@ == answer(502, "provider_error"@, Some("bad_gateway"@), message@, true),
            event_id_fits(out),
    {
        ErrorPlan::new(502, "provider_error", Some("bad_gateway"), message, true)
    }

    /// A service that is not available: status 503.
    pub fn service_unavailable(message: &str) -> (out: Self)
        ensures
            out@ == answer(
                503,
                "service_error"@,
                Some("service_unavailable"@),
                message@,
                true,
            ),
            event_id_fits(out),
    {
        ErrorPlan::new(503, "service_error", Some("service_unavailable"), message, true)
    }

    /// An API key that is not accepted: status 401, with a hint on the
    /// format of the header.
    pub fn invalid_api_key(message: &str) -> (out: Self)
        ensures
            out@ == (ErrorView {
                hint: Some(api_key_hint()),
                ..answer(401, "authentication_error"@, None, message@, true)
            }),
            event_id_fits(out),
    {
        let mut out = ErrorPlan::new(401, "authentication_error", None, message, true);
        out.hint = Some(
            String::from_str(
                "Please check your Bearer token format: 'Authorization: Bearer sk-xxxx'",
            ),
        );
        out
    }

    /// A quota that is used up: status 429.
    pub fn quota_exceeded(message: &str) -> (out: Self)
        ensures
            out@ == answer(429, "quota_error"@, Some("quota_exceeded"@), message@, true),
            event_id_fits(out),
    {
        ErrorPlan::new(429, "quota_error", Some("quota_exceeded"), message, true)
    }

    /// A route that does not exist: status 404.
    pub fn route_not_found() -> (out: Self)
        ensures
            out@ == answer(
                404,
                "invalid_request_error"@,
                Some("route_not_found"@),
                "The requested route was not found on this server"@,
                true,
            ),
            event_id_fits(out),
    {
        ErrorPlan::new(
            404,
            "invalid_request_error",
            Some("route_not_found"),
            "The requested route was not found on this server",
            true,
        )
    }
}

/// An error answer from its parts.
pub fn error(
    status_code: u16,
    error_type: &str,
    code: Option<&str>,
    message: &str,
    is_sorai_error: bool,
) -> (out: ErrorPlan)
    ensures
        out@ == answer(status_code, error_type@, code_view(code), message@, is_sorai_error),
        event_id_fits(out),
{
    ErrorPlan::new(status_code, error_type, code, message, is_sorai_error)
}

} // verus!

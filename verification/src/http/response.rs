//! Answers in the server's envelope: a status, a message, the data or the
//! error, and the request's identifier.

use crate::config::builder::{join, joined_with};
use crate::http::request_id::fresh_type_id;
use crate::text::{lowercase, str_eq, texts};
use vstd::prelude::*;

verus! {

/// What went wrong, by class.
#[derive(Clone, Copy, Debug, PartialEq, Eq, Structural)]
pub enum ErrorCode {
    MissingRequiredParameter,
    InvalidRequest,
    AuthenticationError,
    AuthorizationError,
    RateLimitError,
    QuotaError,
    ApiError,
    ProviderError,
    ServiceError,
}

impl ErrorCode {
    /// The name of the code as it is written in an answer.
    pub fn name(&self) -> (text: String)
        ensures
            text@ == match *self {
                ErrorCode::MissingRequiredParameter => "MISSING_REQUIRED_PARAMETER"@,
                ErrorCode::InvalidRequest => "INVALID_REQUEST"@,
                ErrorCode::AuthenticationError => "AUTHENTICATION_ERROR"@,
                ErrorCode::AuthorizationError => "AUTHORIZATION_ERROR"@,
                ErrorCode::RateLimitError => "RATE_LIMIT_ERROR"@,
                ErrorCode::QuotaError => "QUOTA_ERROR"@,
                ErrorCode::ApiError => "API_ERROR"@,
                ErrorCode::ProviderError => "PROVIDER_ERROR"@,
                ErrorCode::ServiceError => "SERVICE_ERROR"@,
            },
    {
        match self {
            ErrorCode::MissingRequiredParameter => String::from_str("MISSING_REQUIRED_PARAMETER"),
            ErrorCode::InvalidRequest => String::from_str("INVALID_REQUEST"),
            ErrorCode::AuthenticationError => String::from_str("AUTHENTICATION_ERROR"),
            ErrorCode::AuthorizationError => String::from_str("AUTHORIZATION_ERROR"),
            ErrorCode::RateLimitError => String::from_str("RATE_LIMIT_ERROR"),
            ErrorCode::QuotaError => String::from_str("QUOTA_ERROR"),
            ErrorCode::ApiError => String::from_str("API_ERROR"),
            ErrorCode::ProviderError => String::from_str("PROVIDER_ERROR"),
            ErrorCode::ServiceError => String::from_str("SERVICE_ERROR"),
        }
    }
}

/// Whether an error arose in the server or outside it.
#[derive(Clone, Copy, Debug, PartialEq, Eq, Structural)]
pub enum ErrorTypeKind {
    Internal,
    External,
}

impl ErrorTypeKind {
    /// The kind that `name` spells: `internal`, in any case, is
    /// [`ErrorTypeKind::Internal`]; everything else is external.
    pub fn from_name(name: &str) -> (kind: Self)
        ensures
            kind == if lowercase(name@) == "internal"@ {
                ErrorTypeKind::Internal
            } else {
                ErrorTypeKind::External
            },
    {
        let lower = name.to_lowercase();
        if str_eq(lower.as_str(), "internal") {
            ErrorTypeKind::Internal
        } else {
            ErrorTypeKind::External
        }
    }
}

/// Why something went wrong: one reason or several.
#[derive(Debug)]
pub enum ErrorReason {
    Single(String),
    Multiple(Vec<String>),
}

/// The text of a reason: the reason itself, or the reasons with `, `
/// between them.
pub open spec fn reason_text(reason: ErrorReason) -> Seq<char> {
    match reason {
        ErrorReason::Single(text) => text@,
        ErrorReason::Multiple(list) => joined_with(texts(list@), ", "@),
    }
}

impl ErrorReason {
    /// The single reason `text`.
    pub fn single(text: &str) -> (out: Self)
        ensures
            out == ErrorReason::Single(out->Single_0),
            out->Single_0@ == text@,
    {
        ErrorReason::Single(String::from_str(text))
    }

    /// The reason as one line of text.
    pub fn to_text(&self) -> (text: String)
        ensures
            text@ == reason_text(*self),
    {
        match self {
            ErrorReason::Single(text) => text.clone(),
            ErrorReason::Multiple(list) => join(list, ", "),
        }
    }
}

/// The error of an answer.
#[derive(Debug)]
pub struct ErrorType {
    pub code: ErrorCode,
    pub kind: ErrorTypeKind,
    pub reason: ErrorReason,
}

/// What accompanies every answer.
#[derive(Debug)]
pub struct ResponseMetadata {
    pub request_id: String,
}

/// Whether an answer reports success or an error.
#[derive(Clone, Copy, Debug, PartialEq, Eq, Structural)]
pub enum ResponseStatus {
    Success,
    Error,
}

/// The HTTP status that goes with an answer.
pub open spec fn http_status(status: ResponseStatus) -> u16 {
    match status {
        ResponseStatus::Success => 200,
        ResponseStatus::Error => 500,
    }
}

impl ResponseStatus {
    /// The HTTP status that goes with an answer.
    pub fn status_code(&self) -> (code: u16)
        ensures
            code == http_status(*self),
    {
        match self {
            ResponseStatus::Success => 200,
            ResponseStatus::Error => 500,
        }
    }
}

/// An answer in the server's envelope.
#[derive(Debug)]
pub struct ApiResponse<T> {
    pub status: ResponseStatus,
    pub message: String,
    pub data: Option<T>,
    pub error: Option<ErrorType>,
    pub metadata: ResponseMetadata,
}

impl<T> ApiResponse<T> {
    /// An answer that reports success and carries `data`.
    pub fn success(data: T, request_id: String) -> (out: Self)
        ensures
            out.status == ResponseStatus::Success,
            out.message@ == Seq::<char>::empty(),
            out.data == Some(data),
            out.error is None,
            out.metadata.request_id == request_id,
    {
        ApiResponse {
            status: ResponseStatus::Success,
            message: String::new(),
            data: Some(data),
            error: None,
            metadata: ResponseMetadata { request_id },
        }
    }

    /// An answer that reports success, carries `data` and says `message`.
    pub fn success_with_message(data: T, message: String, request_id: String) -> (out: Self)
        ensures
            out.status == ResponseStatus::Success,
            out.message == message,
            out.data == Some(data),
            out.error is None,
            out.metadata.request_id == request_id,
    {
        ApiResponse {
            status: ResponseStatus::Success,
            message,
            data: Some(data),
            error: None,
            metadata: ResponseMetadata { request_id },
        }
    }

    /// An answer that reports `cause`; its message is the error's reason.
    pub fn error(cause: ErrorType, request_id: String) -> (out: Self)
        ensures
            out.status == ResponseStatus::Error,
            out.message@ == reason_text(cause.reason),
            out.data is None,
            out.error == Some(cause),
            out.metadata.request_id == request_id,
    {
        let message = cause.reason.to_text();
        ApiResponse {
            status: ResponseStatus::Error,
            message,
            data: None,
            error: Some(cause),
            metadata: ResponseMetadata { request_id },
        }
    }
}

/// The identifier of a request, as handlers receive it.
#[derive(Debug)]
pub struct RequestId(pub String);

/// The identifier of a request, as it is kept with the request.
#[derive(Debug)]
pub struct RequestIdExtension(pub String);

impl RequestId {
    /// The identifier a request carries in its `x-request-id` header, or a
    /// new one where it carries none.
    pub fn from_header(header: Option<&str>) -> (out: Self)
        ensures
            header is Some ==> out.0@ == header->0@,
            header is None ==> out.0@.len() == 26,
    {
        match header {
            Some(id) => RequestId(String::from_str(id)),
            None => {
                proof {
                    assert(crate::http::request_id::valid_type_prefix(Seq::<char>::empty()));
                }
                let empty = String::new();
                match fresh_type_id(empty.as_str()) {
                    Some(id) => RequestId(id),
                    None => RequestId(String::new()),
                }
            },
        }
    }
}

/// An answer that reports success and carries `data`.
pub fn success<T>(data: T, request_id: String) -> (out: ApiResponse<T>)
    ensures
        out.status == ResponseStatus::Success,
        out.message@ == Seq::<char>::empty(),
        out.data == Some(data),
        out.error is None,
        out.metadata.request_id == request_id,
{
    ApiResponse::success(data, request_id)
}

/// An answer that reports success, carries `data` and says `message`.
pub fn success_with_message<T>(data: T, message: String, request_id: String) -> (out: ApiResponse<
    T,
>)
    ensures
        out.status == ResponseStatus::Success,
        out.message == message,
        out.data == Some(data),
        out.error is None,
        out.metadata.request_id == request_id,
{
    ApiResponse::success_with_message(data, message, request_id)
}

/// An answer that reports `cause`.
pub fn error(cause: ErrorType, request_id: String) -> (out: ApiResponse<()>)
    ensures
        out.status == ResponseStatus::Error,
        out.message@ == reason_text(cause.reason),
        out.data is None,
        out.error == Some(cause),
        out.metadata.request_id == request_id,
{
    ApiResponse::error(cause, request_id)
}

/// The error with the given code, kind and reason.
pub fn create_error(code: ErrorCode, kind: ErrorTypeKind, reason: ErrorReason) -> (out: ErrorType)
    ensures
        out.code == code,
        out.kind == kind,
        out.reason == reason,
{
    ErrorType { code, kind, reason }
}

} // verus!

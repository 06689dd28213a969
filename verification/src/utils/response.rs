//! The wrapper around the data of a successful answer.

use vstd::prelude::*;

verus! {

/// A successful answer: the data, and a message where one was given.
#[derive(Debug)]
pub struct ApiResponse<T> {
    pub success: bool,
    pub data: T,
    pub message: Option<String>,
}

impl<T> ApiResponse<T> {
    /// A successful answer that carries `data`.
    pub fn success(data: T) -> (out: Self)
        ensures
            out.success,
            out.data == data,
            out.message is None,
    {
        ApiResponse { success: true, data, message: None }
    }

    /// A successful answer that carries `data` and says `message`.
    pub fn success_with_message(data: T, message: String) -> (out: Self)
        ensures
            out.success,
            out.data == data,
            out.message == Some(message),
    {
        ApiResponse { success: true, data, message: Some(message) }
    }
}

/// A successful answer that carries `data`.
pub fn success<T>(data: T) -> (out: ApiResponse<T>)
    ensures
        out.success,
        out.data == data,
        out.message is None,
{
    ApiResponse::success(data)
}

/// A successful answer that carries `data` and says `message`.
pub fn success_with_message<T>(data: T, message: String) -> (out: ApiResponse<T>)
    ensures
        out.success,
        out.data == data,
        out.message == Some(message),
{
    ApiResponse::success_with_message(data, message)
}

} // verus!

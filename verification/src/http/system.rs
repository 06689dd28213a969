//! What the server says of itself.

use vstd::prelude::*;

verus! {

/// The state of the service.
#[derive(Debug)]
pub struct HealthStatus {
    pub status: String,
    pub service: String,
    pub version: String,
}

/// A message and nothing else.
#[derive(Debug)]
pub struct MessageResponse {
    pub message: String,
}

/// What the root of the server answers.
pub fn index() -> (out: MessageResponse)
    ensures
        out.message@ == "All is well"@,
{
    MessageResponse { message: String::from_str("All is well") }
}

/// What the health check answers for a server of the given version.
pub fn health_check(version: &str) -> (out: HealthStatus)
    ensures
        out.status@ == "OK"@,
        out.service@ == "Sorai"@,
        out.version@ == version@,
{
    HealthStatus {
        status: String::from_str("OK"),
        service: String::from_str("Sorai"),
        version: String::from_str(version),
    }
}

/// What the status endpoint answers.
pub fn status() -> (out: MessageResponse)
    ensures
        out.message@ == "Sorai Server is running"@,
{
    MessageResponse { message: String::from_str("Sorai Server is running") }
}

} // verus!

//! Shapes shared by the handlers.

pub mod error;
pub mod response;

//! Helpers of the HTTP server: what is logged of a connection, who may call,
//! and the shapes of the answers.

pub mod auth;
pub mod completions;
pub mod connection_info;
pub mod cors;
pub mod request_id;
pub mod response;
pub mod schemas;
pub mod server;
pub mod spa;
pub mod system;

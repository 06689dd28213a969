//! A reverse proxy in front of a Vite development server, with the
//! configuration and HTTP helpers of the server that hosts it.
//!
//! The backend's port is learnt from its start-up log; requests under the
//! mount prefix are rebuilt for `localhost:<port>` and relayed back.

pub mod config;
pub mod http;
pub mod metrics;
pub mod providers;
pub mod text;
pub mod utils;
pub mod vite;

pub use config::builder::Config;
pub use http::server::HttpServer;
pub use utils::response::{success, success_with_message, ApiResponse};
pub use vite::options::ViteProxyOptions;

//! The server's configuration: one record per concern, each with its
//! defaults and with the rows it contributes to the debug table.

pub mod app;
pub mod builder;
pub mod cors;
pub mod database;
pub mod logging;
pub mod mailer;
pub mod providers;
pub mod session;
pub mod sorai;
pub mod storage;

//! What is logged, where, and how often files rotate.

use crate::config::builder::{ConfigItem, Row, flag_string, flag_text, push_item, row, rows};
use vstd::prelude::*;

verus! {

/// Logging settings.
#[derive(Clone, Debug)]
pub struct LoggingConfig {
    /// Whether console lines carry a timestamp.
    pub show_timestamp: bool,
    /// Whether console lines carry the module path.
    pub show_module: bool,
    /// Least severity that is logged.
    pub level: String,
    /// Directory of the log files.
    pub log_directory: String,
    /// How often a new log file is begun.
    pub rotation: String,
    /// Share of requests that are logged, in percent.
    pub request_sampling: u32,
    /// Whether only slow requests are logged.
    pub log_slow_requests_only: bool,
    /// Milliseconds from which a request counts as slow.
    pub slow_threshold_ms: u64,
    /// How much is recorded for analytics.
    pub analytics_mode: String,
}

fn default_show_timestamp() -> (out: bool)
    ensures
        out == true,
{
    true
}

fn default_show_module() -> (out: bool)
    ensures
        out == true,
{
    true
}

fn default_log_level() -> (out: String)
    ensures
        out@ == "info"@,
{
    String::from_str("info")
}

fn default_log_directory() -> (out: String)
    ensures
        out@ == "./logs"@,
{
    String::from_str("./logs")
}

fn default_log_rotation() -> (out: String)
    ensures
        out@ == "daily"@,
{
    String::from_str("daily")
}

fn default_request_sampling() -> (out: u32)
    ensures
        out == 100,
{
    100
}

fn default_log_slow_requests_only() -> (out: bool)
    ensures
        out == false,
{
    false
}

fn default_slow_threshold_ms() -> (out: u64)
    ensures
        out == 1000,
{
    1000
}

fn default_analytics_mode() -> (out: String)
    ensures
        out@ == "full"@,
{
    String::from_str("full")
}

impl LoggingConfig {
    /// Every field holds its default.
    pub open spec fn is_default(&self) -> bool {
        &&& self.show_timestamp
        &&& self.show_module
        &&& self.level@ == "info"@
        &&& self.log_directory@ == "./logs"@
        &&& self.rotation@ == "daily"@
        &&& self.request_sampling == 100
        &&& !self.log_slow_requests_only
        &&& self.slow_threshold_ms == 1000
        &&& self.analytics_mode@ == "full"@
    }

    /// The rows this record adds to the debug table.
    pub open spec fn debug_rows(&self) -> Seq<Row> {
        seq![
            row("Logging"@, "Show Timestamp"@, flag_text(self.show_timestamp)),
            row("Logging"@, "Level"@, self.level@),
            row("Logging"@, "Log Directory"@, self.log_directory@),
            row("Logging"@, "Rotation"@, self.rotation@),
        ]
    }

    /// Appends this record's rows to the debug table.
    pub fn add_to_debug(&self, items: &mut Vec<ConfigItem>)
        ensures
            rows(final(items)@) == rows(old(items)@) + self.debug_rows(),
    {
        push_item(items, "Logging", "Show Timestamp", flag_string(self.show_timestamp));
        push_item(items, "Logging", "Level", self.level.clone());
        push_item(items, "Logging", "Log Directory", self.log_directory.clone());
        push_item(items, "Logging", "Rotation", self.rotation.clone());
    }
}

impl Default for LoggingConfig {
    fn default() -> (out: Self)
        ensures
            out.is_default(),
    {
        LoggingConfig {
            show_timestamp: default_show_timestamp(),
            show_module: default_show_module(),
            level: default_log_level(),
            log_directory: default_log_directory(),
            rotation: default_log_rotation(),
            request_sampling: default_request_sampling(),
            log_slow_requests_only: default_log_slow_requests_only(),
            slow_threshold_ms: default_slow_threshold_ms(),
            analytics_mode: default_analytics_mode(),
        }
    }
}

} // verus!

//! The HTTP server's settings put to use: where it listens, what it logs
//! and how the lines of its request log read.

use crate::config::builder::Config;
use crate::http::connection_info::{looks_like_bot, short_form, ConnectionInfo};
use crate::text::{
    byte_head, byte_head_string, decimal, decimal_string, decimal_string_wide, lowercase, opt_text, starts_with,
    str_eq, string_of_range, to_chars,
};
use vstd::prelude::*;

verus! {

/// The HTTP server: the configuration it runs with.
#[derive(Debug)]
pub struct HttpServer {
    config: Config,
}

/// How often a new log file is begun.
#[derive(Clone, Copy, Debug, PartialEq, Eq, Structural)]
pub enum Rotation {
    Minutely,
    Hourly,
    Daily,
    Never,
}

/// A length of time in the unit that reads best: whole milliseconds from
/// one millisecond on, whole microseconds from one microsecond on,
/// nanoseconds below.
pub open spec fn duration_text(nanos: nat) -> Seq<char> {
    if nanos >= 1000000 {
        decimal(nanos / 1000000) + "ms"@
    } else if nanos >= 1000 {
        decimal(nanos / 1000) + "μs"@
    } else {
        decimal(nanos) + "ns"@
    }
}

/// The first eight characters of a request's identifier; `unknown` for a
/// request without one.
pub open spec fn short_request_id(header: Option<Seq<char>>) -> Seq<char> {
    match header {
        Some(id) => if id.len() > 8 {
            id.take(8)
        } else {
            id
        },
        None => "unknown"@,
    }
}

/// A request's identifier; `unknown` for a request without one.
pub open spec fn request_id_or_unknown(header: Option<Seq<char>>) -> Seq<char> {
    match header {
        Some(id) => id,
        None => "unknown"@,
    }
}

/// What the log shows of a bearer token: its first eight bytes and `***`,
/// or `***` alone for a token of up to eight bytes; the cut moves back
/// where it would fall inside a character. `None` for a header that is not
/// a bearer token.
pub open spec fn masked_bearer(authorization: Option<Seq<char>>) -> Option<Seq<char>> {
    match authorization {
        Some(auth) => if starts_with(auth, "Bearer "@) {
            let key = auth.skip(7);
            if vstd::utf8::encode_utf8(key).len() > 8 {
                Some(byte_head(key, 8) + "***"@)
            } else {
                Some("***"@)
            }
        } else {
            None
        },
        None => None,
    }
}

/// The rotation that a setting in lower case names. `none`, `off`,
/// `disable` and `disabled` turn logging to files off; what is not
/// recognised means daily.
pub open spec fn rotation_named(lower: Seq<char>) -> Option<Rotation> {
    if lower == "minutely"@ {
        Some(Rotation::Minutely)
    } else if lower == "hourly"@ {
        Some(Rotation::Hourly)
    } else if lower == "daily"@ {
        Some(Rotation::Daily)
    } else if lower == "never"@ {
        Some(Rotation::Never)
    } else if lower == "none"@ || lower == "off"@ || lower == "disable"@ || lower == "disabled"@ {
        None
    } else {
        Some(Rotation::Daily)
    }
}

/// The least severity that is logged, for a setting in lower case: the
/// setting where it names a severity, `info` otherwise.
pub open spec fn level_named(lower: Seq<char>) -> Seq<char> {
    if lower == "trace"@ || lower == "debug"@ || lower == "info"@ || lower == "warn"@ || lower
        == "error"@ {
        lower
    } else {
        "info"@
    }
}

/// The filter that applies where the environment sets none.
pub open spec fn filter_directive(crate_name: Seq<char>, level: Seq<char>) -> Seq<char> {
    crate_name + "="@ + level + ",tower_http="@ + level + ",axum::rejection=trace"@
}

/// Where log lines go and what the console shows of each.
#[derive(Clone, Copy, Debug, PartialEq, Eq, Structural)]
pub struct LoggingPlan {
    /// Rotation of the log files; `None` where nothing is written to files.
    pub file: Option<Rotation>,
    /// Whether console lines carry a timestamp.
    pub console_timestamp: bool,
    /// Whether console lines carry the module path.
    pub console_module: bool,
}

/// What the contracts say of an optional string slice.
pub open spec fn slice_text(text: Option<&str>) -> Option<Seq<char>> {
    match text {
        Some(t) => Some(t@),
        None => None,
    }
}

/// The line that logs a response.
pub open spec fn response_line(request_id: Seq<char>, status: u16, nanos: nat) -> Seq<char> {
    let line = "[RES:"@ + request_id + "] "@ + decimal(status as nat) + " "@ + duration_text(nanos);
    if nanos / 1000000 > 1000 {
        line + " SLOW"@
    } else {
        line
    }
}

/// The line that logs a request.
pub open spec fn request_line(
    request_id: Seq<char>,
    method: Seq<char>,
    path: Seq<char>,
    client_ip: Seq<char>,
    user_agent: Seq<char>,
    key: Option<Seq<char>>,
) -> Seq<char> {
    "[REQ:"@ + request_id + "] "@ + method + " "@ + path + " | IP: "@ + client_ip + " | UA: "@
        + short_form(user_agent) + (if looks_like_bot(user_agent) {
        " [BOT]"@
    } else {
        Seq::empty()
    }) + (match key {
        Some(k) => " | Key: "@ + k,
        None => Seq::empty(),
    })
}

impl HttpServer {
    /// A server that runs with `config`.
    pub fn new(config: Config) -> (server: Self)
        ensures
            server.config() == config,
    {
        HttpServer { config }
    }

    /// The configuration the server runs with.
    pub closed spec fn config(&self) -> Config {
        self.config
    }

    /// The configuration the server runs with.
    pub fn settings(&self) -> (config: &Config)
        ensures
            *config == self.config(),
    {
        &self.config
    }

    /// A length of time, given in nanoseconds, for the log.
    pub fn format_duration(nanos: u128) -> (text: String)
        ensures
            text@ == duration_text(nanos as nat),
    {
        if nanos >= 1000000 {
            let mut text = decimal_string_wide(nanos / 1000000);
            text.append("ms");
            text
        } else if nanos >= 1000 {
            let mut text = decimal_string_wide(nanos / 1000);
            text.append("μs");
            text
        } else {
            let mut text = decimal_string_wide(nanos);
            text.append("ns");
            text
        }
    }

    /// The short form of the identifier in a request's or a response's
    /// `x-request-id` header.
    pub fn extract_short_request_id(header: Option<&str>) -> (id: String)
        ensures
            id@ == short_request_id(slice_text(header)),
    {
        match header {
            Some(text) => {
                let chars = to_chars(text);
                if chars.len() > 8 {
                    string_of_range(&chars, 0, 8)
                } else {
                    String::from_str(text)
                }
            },
            None => String::from_str("unknown"),
        }
    }

    /// The identifier in a request's or a response's `x-request-id` header.
    pub fn extract_request_id(header: Option<&str>) -> (id: String)
        ensures
            id@ == request_id_or_unknown(slice_text(header)),
    {
        match header {
            Some(text) => String::from_str(text),
            None => String::from_str("unknown"),
        }
    }

    /// What the log shows of a request's `authorization` header.
    pub fn extract_api_key_for_logging(authorization: Option<&str>) -> (shown: Option<String>)
        ensures
            opt_text(shown) == masked_bearer(slice_text(authorization)),
    {
        let auth = match authorization {
            Some(text) => to_chars(text),
            None => {
                return None;
            },
        };
        let bearer = to_chars("Bearer ");
        proof {
            reveal_strlit("Bearer ");
            assert("Bearer "@.len() == 7);
        }
        if !crate::text::matches_at(&auth, &bearer, 0) {
            return None;
        }
        let key = string_of_range(&auth, 7, auth.len());
        assert(auth@.subrange(7, auth@.len() as int) == auth@.skip(7));
        if key.as_str().as_bytes().len() > 8 {
            let mut shown = byte_head_string(key.as_str(), 8);
            shown.append("***");
            Some(shown)
        } else {
            Some(String::from_str("***"))
        }
    }

    /// The rotation of the log files; `None` where nothing is written to
    /// files.
    pub fn parse_rotation(&self) -> (rotation: Option<Rotation>)
        ensures
            rotation == rotation_named(lowercase(self.config().logging.rotation@)),
    {
        let lower = self.config.logging.rotation.as_str().to_lowercase();
        let name = lower.as_str();
        if str_eq(name, "minutely") {
            Some(Rotation::Minutely)
        } else if str_eq(name, "hourly") {
            Some(Rotation::Hourly)
        } else if str_eq(name, "daily") {
            Some(Rotation::Daily)
        } else if str_eq(name, "never") {
            Some(Rotation::Never)
        } else if str_eq(name, "none") || str_eq(name, "off") || str_eq(name, "disable") || str_eq(
            name,
            "disabled",
        ) {
            None
        } else {
            Some(Rotation::Daily)
        }
    }

    /// The least severity that is logged.
    pub fn log_level(&self) -> (level: String)
        ensures
            level@ == level_named(lowercase(self.config().logging.level@)),
    {
        let lower = self.config.logging.level.as_str().to_lowercase();
        let name = lower.as_str();
        if str_eq(name, "trace") || str_eq(name, "debug") || str_eq(name, "info") || str_eq(
            name,
            "warn",
        ) || str_eq(name, "error") {
            lower
        } else {
            String::from_str("info")
        }
    }

    /// The filter that applies where the environment sets none.
    pub fn default_filter(&self, crate_name: &str) -> (filter: String)
        ensures
            filter@ == filter_directive(
                crate_name@,
                level_named(lowercase(self.config().logging.level@)),
            ),
    {
        let level = self.log_level();
        let mut filter = String::from_str(crate_name);
        filter.append("=");
        filter.append(level.as_str());
        filter.append(",tower_http=");
        filter.append(level.as_str());
        filter.append(",axum::rejection=trace");
        filter
    }

    /// Where log lines go. Files are written with the configured rotation
    /// when the log directory is there; without it, only the console is
    /// written to.
    pub fn logging_plan(&self, directory_ready: bool) -> (plan: LoggingPlan)
        ensures
            plan == (LoggingPlan {
                file: if directory_ready {
                    rotation_named(lowercase(self.config().logging.rotation@))
                } else {
                    None
                },
                console_timestamp: self.config().logging.show_timestamp,
                console_module: self.config().logging.show_module,
            }),
    {
        let file = if directory_ready {
            self.parse_rotation()
        } else {
            None
        };
        LoggingPlan {
            file,
            console_timestamp: self.config.logging.show_timestamp,
            console_module: self.config.logging.show_module,
        }
    }

    /// The address the server listens on: host, colon, port.
    pub fn listen_address(&self) -> (address: String)
        ensures
            address@ == self.config().sorai.host@ + ":"@ + decimal(
                self.config().sorai.port as nat,
            ),
    {
        let mut address = self.config.sorai.host.clone();
        address.append(":");
        address.append(decimal_string(self.config.sorai.port as u64).as_str());
        address
    }

    /// The line that logs a response with the given identifier, status and
    /// latency in nanoseconds. A response that took more than a second is
    /// marked `SLOW`.
    pub fn response_log_line(request_id: &str, status: u16, nanos: u128) -> (line: String)
        ensures
            line@ == response_line(request_id@, status, nanos as nat),
    {
        let mut line = String::from_str("[RES:");
        line.append(request_id);
        line.append("] ");
        line.append(decimal_string(status as u64).as_str());
        line.append(" ");
        line.append(HttpServer::format_duration(nanos).as_str());
        if nanos / 1000000 > 1000 {
            line.append(" SLOW");
        }
        line
    }

    /// The line that logs a request.
    pub fn request_log_line(
        request_id: &str,
        method: &str,
        path: &str,
        client: &ConnectionInfo,
        key: Option<String>,
    ) -> (line: String)
        ensures
            line@ == request_line(
                request_id@,
                method@,
                path@,
                client.client_ip@,
                client.user_agent@,
                opt_text(key),
            ),
    {
        let mut line = String::from_str("[REQ:");
        line.append(request_id);
        line.append("] ");
        line.append(method);
        line.append(" ");
        line.append(path);
        line.append(" | IP: ");
        line.append(client.client_ip.as_str());
        line.append(" | UA: ");
        line.append(client.short_user_agent().as_str());
        let ghost before = line@;
        if client.is_bot() {
            line.append(" [BOT]");
        } else {
            assert(before + Seq::<char>::empty() == before);
        }
        let ghost middle = line@;
        match key {
            Some(k) => {
                line.append(" | Key: ");
                line.append(k.as_str());
                assert(middle + " | Key: "@ + k@ == middle + (" | Key: "@ + k@));
            },
            None => {
                assert(middle + Seq::<char>::empty() == middle);
            },
        }
        line
    }
}

} // verus!

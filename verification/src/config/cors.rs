//! Cross-origin resource sharing.

use crate::config::builder::{ConfigItem, Row, flag_string, flag_text, join, joined_with, number_with_unit, push_item, row, rows, with_unit};
use crate::text::{texts};
use vstd::prelude::*;

verus! {

/// What other origins may do.
#[derive(Clone, Debug)]
pub struct CorsConfig {
    /// Whether the CORS layer is installed.
    pub enabled: bool,
    /// Origins that may call; `*` alone allows any.
    pub allow_origins: Vec<String>,
    /// Methods that may be used.
    pub allow_methods: Vec<String>,
    /// Request headers that may be sent.
    pub allow_headers: Vec<String>,
    /// Response headers that scripts may read.
    pub expose_headers: Vec<String>,
    /// Whether credentials may be sent.
    pub allow_credentials: bool,
    /// Seconds a preflight answer may be cached.
    pub max_age: u64,
}

fn default_cors_enabled() -> (out: bool)
    ensures
        out == true,
{
    true
}

fn default_cors_allow_origins() -> (out: Vec<String>)
    ensures
        texts(out@) == seq!["*"@],
{
    let mut out: Vec<String> = Vec::new();
    out.push(String::from_str("*"));
    assert(texts(out@) == seq!["*"@]);
    out
}

fn default_cors_allow_methods() -> (out: Vec<String>)
    ensures
        texts(out@) == seq!["GET"@, "POST"@, "PUT"@, "DELETE"@, "HEAD"@, "OPTIONS"@, "PATCH"@],
{
    let mut out: Vec<String> = Vec::new();
    out.push(String::from_str("GET"));
    out.push(String::from_str("POST"));
    out.push(String::from_str("PUT"));
    out.push(String::from_str("DELETE"));
    out.push(String::from_str("HEAD"));
    out.push(String::from_str("OPTIONS"));
    out.push(String::from_str("PATCH"));
    assert(texts(out@) == seq!["GET"@, "POST"@, "PUT"@, "DELETE"@, "HEAD"@, "OPTIONS"@, "PATCH"@]);
    out
}

fn default_cors_allow_headers() -> (out: Vec<String>)
    ensures
        texts(out@) == seq!["accept"@, "accept-language"@, "authorization"@, "content-type"@, "user-agent"@, "x-requested-id"@],
{
    let mut out: Vec<String> = Vec::new();
    out.push(String::from_str("accept"));
    out.push(String::from_str("accept-language"));
    out.push(String::from_str("authorization"));
    out.push(String::from_str("content-type"));
    out.push(String::from_str("user-agent"));
    out.push(String::from_str("x-requested-id"));
    assert(texts(out@) == seq!["accept"@, "accept-language"@, "authorization"@, "content-type"@, "user-agent"@, "x-requested-id"@]);
    out
}

fn default_cors_expose_headers() -> (out: Vec<String>)
    ensures
        texts(out@) == Seq::<Seq<char>>::empty(),
{
    let mut out: Vec<String> = Vec::new();
    assert(texts(out@) == Seq::<Seq<char>>::empty());
    out
}

fn default_cors_allow_credentials() -> (out: bool)
    ensures
        out == false,
{
    false
}

fn default_cors_max_age() -> (out: u64)
    ensures
        out == 3600,
{
    3600
}

impl CorsConfig {
    /// Every field holds its default.
    pub open spec fn is_default(&self) -> bool {
        &&& self.enabled
        &&& texts(self.allow_origins@) == seq!["*"@]
        &&& texts(self.allow_methods@) == seq!["GET"@, "POST"@, "PUT"@, "DELETE"@, "HEAD"@, "OPTIONS"@, "PATCH"@]
        &&& texts(self.allow_headers@) == seq!["accept"@, "accept-language"@, "authorization"@, "content-type"@, "user-agent"@, "x-requested-id"@]
        &&& texts(self.expose_headers@) == Seq::<Seq<char>>::empty()
        &&& !self.allow_credentials
        &&& self.max_age == 3600
    }

    /// The rows this record adds to the debug table.
    pub open spec fn debug_rows(&self) -> Seq<Row> {
        seq![
            row("CORS"@, "Enabled"@, flag_text(self.enabled)),
            row("CORS"@, "Allow Origins"@, joined_with(texts(self.allow_origins@), ", "@)),
            row("CORS"@, "Allow Methods"@, joined_with(texts(self.allow_methods@), ", "@)),
            row("CORS"@, "Allow Headers"@, joined_with(texts(self.allow_headers@), ", "@)),
            row("CORS"@, "Allow Credentials"@, flag_text(self.allow_credentials)),
            row("CORS"@, "Max Age"@, with_unit(self.max_age as nat, "s"@)),
        ]
    }

    /// Appends this record's rows to the debug table.
    pub fn add_to_debug(&self, items: &mut Vec<ConfigItem>)
        ensures
            rows(final(items)@) == rows(old(items)@) + self.debug_rows(),
    {
        push_item(items, "CORS", "Enabled", flag_string(self.enabled));
        push_item(items, "CORS", "Allow Origins", join(&self.allow_origins, ", "));
        push_item(items, "CORS", "Allow Methods", join(&self.allow_methods, ", "));
        push_item(items, "CORS", "Allow Headers", join(&self.allow_headers, ", "));
        push_item(items, "CORS", "Allow Credentials", flag_string(self.allow_credentials));
        push_item(items, "CORS", "Max Age", number_with_unit(self.max_age, "s"));
    }
}

impl Default for CorsConfig {
    fn default() -> (out: Self)
        ensures
            out.is_default(),
    {
        CorsConfig {
            enabled: default_cors_enabled(),
            allow_origins: default_cors_allow_origins(),
            allow_methods: default_cors_allow_methods(),
            allow_headers: default_cors_allow_headers(),
            expose_headers: default_cors_expose_headers(),
            allow_credentials: default_cors_allow_credentials(),
            max_age: default_cors_max_age(),
        }
    }
}

} // verus!

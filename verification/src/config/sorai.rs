//! Where the server listens and how it treats requests.

use crate::config::builder::{ConfigItem, Row, number_with_unit, push_item, row, rows, with_unit};
use crate::text::{decimal, decimal_string};
use vstd::prelude::*;

verus! {

/// The server's own settings.
#[derive(Clone, Debug)]
pub struct SoraiConfig {
    /// Address to bind.
    pub host: String,
    /// Port to bind.
    pub port: u16,
    /// Size of the connection pool.
    pub pool_size: u32,
    /// Seconds after which a request is given up.
    pub timeout_request: u64,
}

fn default_host() -> (out: String)
    ensures
        out@ == "0.0.0.0"@,
{
    String::from_str("0.0.0.0")
}

fn default_port() -> (out: u16)
    ensures
        out == 8000,
{
    8000
}

fn default_pool_size() -> (out: u32)
    ensures
        out == 300,
{
    300
}

fn default_timeout_request() -> (out: u64)
    ensures
        out == 30,
{
    30
}

impl SoraiConfig {
    /// Every field holds its default.
    pub open spec fn is_default(&self) -> bool {
        &&& self.host@ == "0.0.0.0"@
        &&& self.port == 8000
        &&& self.pool_size == 300
        &&& self.timeout_request == 30
    }

    /// The rows this record adds to the debug table.
    pub open spec fn debug_rows(&self) -> Seq<Row> {
        seq![
            row("Sorai"@, "Host"@, self.host@),
            row("Sorai"@, "Port"@, decimal(self.port as nat)),
            row("Sorai"@, "Pool Size"@, decimal(self.pool_size as nat)),
            row("Sorai"@, "Timeout Request"@, with_unit(self.timeout_request as nat, "s"@)),
        ]
    }

    /// Appends this record's rows to the debug table.
    pub fn add_to_debug(&self, items: &mut Vec<ConfigItem>)
        ensures
            rows(final(items)@) == rows(old(items)@) + self.debug_rows(),
    {
        push_item(items, "Sorai", "Host", self.host.clone());
        push_item(items, "Sorai", "Port", decimal_string(self.port as u64));
        push_item(items, "Sorai", "Pool Size", decimal_string(self.pool_size as u64));
        push_item(items, "Sorai", "Timeout Request", number_with_unit(self.timeout_request, "s"));
    }
}

impl Default for SoraiConfig {
    fn default() -> (out: Self)
        ensures
            out.is_default(),
    {
        SoraiConfig {
            host: default_host(),
            port: default_port(),
            pool_size: default_pool_size(),
            timeout_request: default_timeout_request(),
        }
    }
}

} // verus!

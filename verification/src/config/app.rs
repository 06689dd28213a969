//! Application mode, secrets and token lifetimes.

use crate::config::builder::{ConfigItem, Row, number_with_unit, or_not_set, push_item, redact_sensitive, redacted, row, rows, shown, with_unit};
use vstd::prelude::*;

verus! {

/// Application-wide settings.
#[derive(Clone, Debug)]
pub struct AppConfig {
    /// Run mode.
    pub mode: String,
    /// Secret the application signs with.
    pub secret_key: String,
    /// Secret that signs tokens.
    pub jwt_secret_key: String,
    /// Lifetime of an access token, in seconds.
    pub jwt_access_token_expiry: u64,
    /// Lifetime of a refresh token, in seconds.
    pub jwt_refresh_token_expiry: u64,
    /// Directory for the application's data.
    pub data_dir: String,
}

fn default_mode() -> (out: String)
    ensures
        out@ == "development"@,
{
    String::from_str("development")
}

fn default_jwt_access_token_expiry() -> (out: u64)
    ensures
        out == 900,
{
    900
}

fn default_jwt_refresh_token_expiry() -> (out: u64)
    ensures
        out == 7200,
{
    7200
}

fn default_data_dir() -> (out: String)
    ensures
        out@ == "./data"@,
{
    String::from_str("./data")
}

impl AppConfig {
    /// Every field holds its default.
    pub open spec fn is_default(&self) -> bool {
        &&& self.mode@ == "development"@
        &&& self.secret_key@ == Seq::<char>::empty()
        &&& self.jwt_secret_key@ == Seq::<char>::empty()
        &&& self.jwt_access_token_expiry == 900
        &&& self.jwt_refresh_token_expiry == 7200
        &&& self.data_dir@ == "./data"@
    }

    /// The rows this record adds to the debug table.
    pub open spec fn debug_rows(&self) -> Seq<Row> {
        seq![
            row("App"@, "Mode"@, self.mode@),
            row("App"@, "Data Directory"@, shown(self.data_dir@)),
            row("App"@, "Secret Key"@, redacted(self.secret_key@)),
            row("JWT"@, "Secret Key"@, redacted(self.jwt_secret_key@)),
            row("JWT"@, "Access Token Expiry"@, with_unit(self.jwt_access_token_expiry as nat, "s"@)),
            row("JWT"@, "Refresh Token Expiry"@, with_unit(self.jwt_refresh_token_expiry as nat, "s"@)),
        ]
    }

    /// Appends this record's rows to the debug table.
    pub fn add_to_debug(&self, items: &mut Vec<ConfigItem>)
        ensures
            rows(final(items)@) == rows(old(items)@) + self.debug_rows(),
    {
        push_item(items, "App", "Mode", self.mode.clone());
        push_item(items, "App", "Data Directory", or_not_set(&self.data_dir));
        push_item(items, "App", "Secret Key", redact_sensitive(self.secret_key.as_str()));
        push_item(items, "JWT", "Secret Key", redact_sensitive(self.jwt_secret_key.as_str()));
        push_item(items, "JWT", "Access Token Expiry", number_with_unit(self.jwt_access_token_expiry, "s"));
        push_item(items, "JWT", "Refresh Token Expiry", number_with_unit(self.jwt_refresh_token_expiry, "s"));
    }
}

impl Default for AppConfig {
    fn default() -> (out: Self)
        ensures
            out.is_default(),
    {
        AppConfig {
            mode: default_mode(),
            secret_key: String::new(),
            jwt_secret_key: String::new(),
            jwt_access_token_expiry: default_jwt_access_token_expiry(),
            jwt_refresh_token_expiry: default_jwt_refresh_token_expiry(),
            data_dir: default_data_dir(),
        }
    }
}

} // verus!

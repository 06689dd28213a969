//! The database connection.

use crate::config::builder::{ConfigItem, Row, flag_string, flag_text, or_not_set, push_item, row, rows, shown};
use vstd::prelude::*;

verus! {

/// Where the database is and how it is opened.
#[derive(Clone, Debug)]
pub struct DatabaseConfig {
    /// Address of the database.
    pub url: String,
    /// Token that opens it.
    pub token: String,
    /// Whether migrations run at start-up.
    pub auto_migrate: bool,
}

fn default_auto_migrate() -> (out: bool)
    ensures
        out == false,
{
    false
}

impl DatabaseConfig {
    /// Every field holds its default.
    pub open spec fn is_default(&self) -> bool {
        &&& self.url@ == Seq::<char>::empty()
        &&& self.token@ == Seq::<char>::empty()
        &&& !self.auto_migrate
    }

    /// The rows this record adds to the debug table.
    pub open spec fn debug_rows(&self) -> Seq<Row> {
        seq![
            row("Database"@, "URL"@, shown(self.url@)),
            row("Database"@, "Token"@, if self.token@.len() == 0 { "<not set>"@ } else { "***"@ }),
            row("Database"@, "Auto Migrate"@, flag_text(self.auto_migrate)),
        ]
    }

    /// Appends this record's rows to the debug table.
    pub fn add_to_debug(&self, items: &mut Vec<ConfigItem>)
        ensures
            rows(final(items)@) == rows(old(items)@) + self.debug_rows(),
    {
        push_item(items, "Database", "URL", or_not_set(&self.url));
        push_item(items, "Database", "Token", if self.token.as_str().is_empty() { String::from_str("<not set>") } else { String::from_str("***") });
        push_item(items, "Database", "Auto Migrate", flag_string(self.auto_migrate));
    }
}

impl Default for DatabaseConfig {
    fn default() -> (out: Self)
        ensures
            out.is_default(),
    {
        DatabaseConfig {
            url: String::new(),
            token: String::new(),
            auto_migrate: default_auto_migrate(),
        }
    }
}

} // verus!

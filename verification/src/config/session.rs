//! Where sessions are kept.

use crate::config::builder::{ConfigItem, Row, push_item, row, rows};
use vstd::prelude::*;

verus! {

/// Session settings.
#[derive(Clone, Debug)]
pub struct SessionConfig {
    /// The store that holds sessions.
    pub storage: String,
}

impl SessionConfig {
    /// Every field holds its default.
    pub open spec fn is_default(&self) -> bool {
        &&& self.storage@ == Seq::<char>::empty()
    }

    /// The rows this record adds to the debug table.
    pub open spec fn debug_rows(&self) -> Seq<Row> {
        seq![
            row("Session"@, "Storage"@, self.storage@),
        ]
    }

    /// Appends this record's rows to the debug table.
    pub fn add_to_debug(&self, items: &mut Vec<ConfigItem>)
        ensures
            rows(final(items)@) == rows(old(items)@) + self.debug_rows(),
    {
        push_item(items, "Session", "Storage", self.storage.clone());
    }
}

impl Default for SessionConfig {
    fn default() -> (out: Self)
        ensures
            out.is_default(),
    {
        SessionConfig {
            storage: String::new(),
        }
    }
}

} // verus!

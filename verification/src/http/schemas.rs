//! Shapes of the completion results that providers hand back.

use vstd::prelude::*;

verus! {

/// One choice of a completion result.
#[derive(Debug, Clone, PartialEq, Eq)]
pub struct SoraiResponseChoice {
    pub index: i64,
    pub message: String,
}

impl Default for SoraiResponseChoice {
    fn default() -> (out: Self)
        ensures
            out.index == 0,
            out.message@ == Seq::<char>::empty(),
    {
        SoraiResponseChoice { index: 0, message: String::new() }
    }
}

} // verus!

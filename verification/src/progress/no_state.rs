//! The absence of extra state in progress reports.

use vstd::prelude::*;

verus! {

/// No additional state when tracking progress; it is shown as nothing.
#[derive(Debug, Clone, Copy, Default, PartialEq, Eq, Structural)]
pub struct NoState;

impl NoState {
    /// How the state is shown: as nothing at all.
    pub fn text(&self) -> (s: String)
        ensures
            s@ == Seq::<char>::empty(),
    {
        String::new()
    }
}

} // verus!

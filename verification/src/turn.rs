//! A turn's transient point allocation.

use vstd::prelude::*;

verus! {

/// A split of one turn's pool between attack and defend; any remainder of the
/// pool is implicitly saved for the acting unit's next turn.
#[derive(Clone, Copy, PartialEq, Eq, Structural, Debug)]
pub struct Turn {
    pub attack: u32,
    pub defend: u32,
}

impl Turn {
    /// Total points this allocation spends.
    pub open spec fn spent(self) -> int {
        self.attack + self.defend
    }
}

} // verus!

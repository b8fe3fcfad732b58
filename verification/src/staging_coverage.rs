//! Whether the staging of a texture holds every byte of its levels.

use vstd::prelude::*;

verus! {

/// How much of a staging has been filled since it was allocated.
#[derive(Clone, Copy, Debug, PartialEq, Eq, Structural)]
pub struct StagingCoverage {
    full: bool,
}

impl StagingCoverage {
    /// Whether every byte is filled.
    pub closed spec fn full(self) -> bool {
        self.full
    }

    /// A staging that was just allocated.
    pub fn new() -> (r: Self)
        ensures
            !r.full(),
    {
        StagingCoverage { full: false }
    }

    /// Whether every byte is filled.
    pub fn is_full(&self) -> (r: bool)
        ensures
            r == self.full(),
    {
        self.full
    }

    /// Records that every byte has been filled.
    pub fn mark_full(&mut self)
        ensures
            final(self).full(),
    {
        self.full = true;
    }
}

} // verus!

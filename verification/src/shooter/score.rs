//! The score of a shooter match.
use vstd::prelude::*;

verus! {

/// Points gathered in the match.
pub struct Score {
    value: u32,
}

impl View for Score {
    type V = nat;

    closed spec fn view(&self) -> nat {
        self.value as nat
    }
}

impl Score {
    /// A score of zero.
    pub fn new() -> (score: Self)
        ensures
            score@ == 0,
    {
        Score { value: 0 }
    }

    /// Adds `points` to the score.
    pub fn add(&mut self, points: u32)
        requires
            old(self)@ + points <= u32::MAX,
        ensures
            final(self)@ == old(self)@ + points,
    {
        self.value = self.value + points;
    }

    /// The points gathered so far.
    pub fn value(&self) -> (points: u32)
        ensures
            points == self@,
    {
        self.value
    }
}

impl Default for Score {
    fn default() -> (score: Self)
        ensures
            score@ == 0,
    {
        Self::new()
    }
}

} // verus!

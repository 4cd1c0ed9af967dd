//! The score of an Asteroids game.
use vstd::prelude::*;

verus! {

/// Points gathered so far.
pub struct Score(u32);

impl View for Score {
    type V = nat;

    closed spec fn view(&self) -> nat {
        self.0 as nat
    }
}

impl Score {
    /// A score of zero.
    pub fn new() -> (score: Self)
        ensures
            score@ == 0,
    {
        Score(0)
    }

    /// Adds `points` to the score.
    pub fn add(&mut self, points: u32)
        requires
            old(self)@ + points <= u32::MAX,
        ensures
            final(self)@ == old(self)@ + points,
    {
        self.0 = self.0 + points;
    }

    /// The points gathered so far.
    pub fn value(&self) -> (points: u32)
        ensures
            points == self@,
    {
        self.0
    }
}

/// Adding in two steps gives the same score as adding the sum at once.
pub proof fn adding_accumulates(start: nat, first: nat, second: nat)
    ensures
        (start + first) + second == start + (first + second),
{
}

} // verus!

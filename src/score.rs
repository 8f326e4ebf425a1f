use vstd::prelude::*;

verus! {

/// The running score of a session. It only ever grows, and stops at the
/// largest value rather than wrapping.
#[derive(PartialEq, Eq, Structural, Clone, Copy, Debug)]
pub struct Score(pub u64);

/// `score + points`, stopping at `u64::MAX`.
pub open spec fn credited(score: int, points: int) -> int {
    if score + points > u64::MAX {
        u64::MAX as int
    } else {
        score + points
    }
}

impl Score {
    /// A fresh session's score.
    pub fn new() -> (r: Self)
        ensures
            r.0 == 0,
    {
        Score(0)
    }

    pub fn value(&self) -> (r: u64)
        ensures
            r == self.0,
    {
        self.0
    }

    /// Credits `points` to the score.
    pub fn add(&mut self, points: u64)
        ensures
            final(self).0 == credited(old(self).0 as int, points as int),
            final(self).0 >= old(self).0,
    {
        self.0 = self.0.saturating_add(points);
    }
}

} // verus!

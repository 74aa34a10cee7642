//! Following the level of an input line, such as a push button.

use vstd::prelude::*;

verus! {

/// Remembers the level last seen on an input line; `true` is high.
#[derive(Clone, Copy, Debug, PartialEq, Eq, Structural)]
pub struct LevelTracker {
    pub is_high: bool,
}

impl LevelTracker {
    /// A tracker that takes the line for low.
    pub fn new() -> (t: LevelTracker)
        ensures
            !t.is_high,
    {
        LevelTracker { is_high: false }
    }

    /// Takes note of the level now on the line. Returns the new level if
    /// it differs from the one remembered, and nothing if it does not.
    pub fn observe(&mut self, level: bool) -> (change: Option<bool>)
        ensures
            final(self).is_high == level,
            change == if level != old(self).is_high { Some(level) } else { None },
    {
        if level != self.is_high {
            self.is_high = !self.is_high;
            Some(self.is_high)
        } else {
            None
        }
    }
}

} // verus!

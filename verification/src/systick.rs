//! A millisecond tick counter that fires once every half second.

use vstd::prelude::*;

verus! {

/// Milliseconds from one firing to the next.
pub const PERIOD_MS: u32 = 500;

/// Counts millisecond ticks and fires on every five hundredth.
#[derive(Clone, Copy, Debug)]
pub struct SysTimer {
    tick_ms: u32,
}

impl SysTimer {
    /// Ticks counted since the timer was made or last fired.
    pub closed spec fn elapsed(self) -> int {
        self.tick_ms as int
    }

    /// The count never reaches a full period.
    #[verifier::type_invariant]
    spec fn below_period(self) -> bool {
        self.tick_ms < PERIOD_MS
    }

    /// A timer that has counted nothing.
    pub fn new() -> (t: SysTimer)
        ensures
            t.elapsed() == 0,
    {
        SysTimer { tick_ms: 0 }
    }

    /// Ticks counted since the timer was made or last fired, always fewer
    /// than a period.
    pub fn elapsed_ms(&self) -> (n: u32)
        ensures
            n == self.elapsed(),
            n < PERIOD_MS,
    {
        proof {
            use_type_invariant(self);
        }
        self.tick_ms
    }

    /// Counts one millisecond. Returns whether the timer fires, which it
    /// does when this tick completes a period; the count then starts over.
    pub fn tick(&mut self) -> (fires: bool)
        ensures
            fires == (old(self).elapsed() + 1 == PERIOD_MS),
            final(self).elapsed() == if fires { 0 } else { old(self).elapsed() + 1 },
    {
        proof {
            use_type_invariant(&*self);
        }
        let next: u32 = self.tick_ms + 1;
        if next >= PERIOD_MS {
            self.tick_ms = 0;
            true
        } else {
            self.tick_ms = next;
            false
        }
    }
}

} // verus!

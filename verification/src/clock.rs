use vstd::prelude::*;

verus! {

/// The start of the animation, in nanoseconds on a monotonic clock.
#[derive(Clone, Copy, Debug, PartialEq, Eq, Structural)]
pub struct RenderClock {
    pub start: u64,
}

impl RenderClock {
    /// Nanoseconds from the start of the animation to `now`; zero where
    /// `now` lies before the start.
    pub open spec fn spec_elapsed(self, now: u64) -> nat {
        if now >= self.start {
            (now - self.start) as nat
        } else {
            0
        }
    }

    /// A clock whose animation starts at `now`.
    pub fn started_at(now: u64) -> (clock: RenderClock)
        ensures
            clock.start == now,
            clock.spec_elapsed(now) == 0,
    {
        RenderClock { start: now }
    }

    /// Time passed since the start, saturating at zero.
    pub fn elapsed(&self, now: u64) -> (nanos: u64)
        ensures
            nanos == self.spec_elapsed(now),
    {
        if now >= self.start {
            now - self.start
        } else {
            0
        }
    }
}

} // verus!

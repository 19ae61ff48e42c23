//! Wall-clock frames feeding fixed simulation steps.
use vstd::prelude::*;

verus! {

/// Length of one simulation step, in microseconds.
pub const STEP_MICROS: u64 = 13_889;
/// Longest frame that is taken into account; a longer stall is cut to this.
pub const MAX_FRAME_MICROS: u64 = 250_000;

/// Time that has elapsed and not yet been simulated.
#[derive(Clone, Copy, Debug, PartialEq, Eq, Structural)]
pub struct FrameClock {
    pub accumulated: u64,
}

pub open spec fn clamp_frame(elapsed: int) -> int {
    if elapsed < MAX_FRAME_MICROS {
        elapsed
    } else {
        MAX_FRAME_MICROS as int
    }
}

impl FrameClock {
    pub fn new() -> (r: FrameClock)
        ensures
            r.accumulated == 0,
    {
        FrameClock { accumulated: 0 }
    }

    /// Adds a frame of `elapsed` microseconds, cut to `MAX_FRAME_MICROS`,
    /// and returns the time taken into account.
    pub fn add_frame(&mut self, elapsed: u64) -> (r: u64)
        requires
            old(self).accumulated <= u64::MAX - MAX_FRAME_MICROS,
        ensures
            r == clamp_frame(elapsed as int),
            final(self).accumulated == old(self).accumulated + r,
    {
        let d: u64 = if elapsed < MAX_FRAME_MICROS {
            elapsed
        } else {
            MAX_FRAME_MICROS
        };
        self.accumulated = self.accumulated + d;
        d
    }

    /// Whether a whole step is waiting to be simulated.
    pub fn has_step(&self) -> (r: bool)
        ensures
            r == (self.accumulated >= STEP_MICROS),
    {
        self.accumulated >= STEP_MICROS
    }

    /// Takes one step's time off the clock.
    pub fn consume_step(&mut self)
        requires
            old(self).accumulated >= STEP_MICROS,
        ensures
            final(self).accumulated == old(self).accumulated - STEP_MICROS,
    {
        self.accumulated = self.accumulated - STEP_MICROS;
    }
}

} // verus!

//! Deterministic stand-ins for the platform primitives the ranging
//! protocol consumes: a free-running pulse timer, a write-only trigger
//! line, and a read-only echo line whose behaviour over one cycle is
//! scripted by two tick counts.

use vstd::prelude::*;

verus! {

/// A free-running pulse timer: a counter that advances one step per tick
/// period of simulated time and saturates at its maximum instead of
/// wrapping. `reset` zeroes it, `read` returns it without side effects,
/// and `advance` models one tick period of real time passing while the
/// protocol busy-waits.
pub struct SimTimer {
    ticks: u16,
}

impl SimTimer {
    /// The counter value, in ticks since the last reset.
    pub closed spec fn spec_ticks(&self) -> u16 {
        self.ticks
    }

    /// A freshly configured timer reads zero.
    pub fn new() -> (t: SimTimer)
        ensures
            t.spec_ticks() == 0,
    {
        SimTimer { ticks: 0 }
    }

    /// Zero the counter. Always succeeds; no other side effects.
    pub fn reset(&mut self)
        ensures
            final(self).spec_ticks() == 0,
    {
        self.ticks = 0;
    }

    /// Read the current counter value. Never blocks, never changes state.
    pub fn read(&self) -> (t: u16)
        ensures
            t == self.spec_ticks(),
    {
        self.ticks
    }

    /// One tick period of simulated time passes: the counter advances by
    /// one, saturating at its maximum rather than wrapping.
    pub fn advance(&mut self)
        ensures
            final(self).spec_ticks() == (if old(self).spec_ticks() == u16::MAX {
                old(self).spec_ticks() as int
            } else {
                old(self).spec_ticks() + 1
            }),
    {
        if self.ticks < u16::MAX {
            self.ticks = self.ticks + 1;
        }
    }
}

/// The write-only trigger line. Besides the line's current level it keeps
/// one piece of bookkeeping a real line does not need: the total time, in
/// microseconds of busy-delay, the line has been held high. That total
/// makes the shape of the trigger pulse visible in contracts.
pub struct TriggerLine {
    high: bool,
    held_high_us: u64,
}

impl TriggerLine {
    /// Whether the line currently reads high.
    pub closed spec fn spec_is_high(&self) -> bool {
        self.high
    }

    /// Total microseconds of busy-delay spent with the line high.
    pub closed spec fn spec_held_high_us(&self) -> u64 {
        self.held_high_us
    }

    /// A fresh line is low and has never been held high.
    pub fn new() -> (l: TriggerLine)
        ensures
            !l.spec_is_high(),
            l.spec_held_high_us() == 0,
    {
        TriggerLine { high: false, held_high_us: 0 }
    }

    /// Observe the line's current level.
    pub fn is_high(&self) -> (b: bool)
        ensures
            b == self.spec_is_high(),
    {
        self.high
    }

    /// The recorded pulse-width total, in microseconds.
    pub fn held_high_us(&self) -> (us: u64)
        ensures
            us == self.spec_held_high_us(),
    {
        self.held_high_us
    }

    /// Drive the line high.
    pub fn set_high(&mut self)
        ensures
            final(self).spec_is_high(),
            final(self).spec_held_high_us() == old(self).spec_held_high_us(),
    {
        self.high = true;
    }

    /// Drive the line low.
    pub fn set_low(&mut self)
        ensures
            !final(self).spec_is_high(),
            final(self).spec_held_high_us() == old(self).spec_held_high_us(),
    {
        self.high = false;
    }

    /// Busy-delay for `us` microseconds. The line's level does not change;
    /// while the line is high the delay adds to the recorded pulse width.
    pub fn hold_us(&mut self, us: u16)
        requires
            old(self).spec_held_high_us() + us <= u64::MAX,
        ensures
            final(self).spec_is_high() == old(self).spec_is_high(),
            final(self).spec_held_high_us() == old(self).spec_held_high_us() + (
            if old(self).spec_is_high() {
                us as int
            } else {
                0
            }),
    {
        if self.high {
            self.held_high_us = self.held_high_us + us as u64;
        }
    }
}

/// One scripted echo pulse: the deterministic stand-in for the read-only
/// echo line over a single ranging cycle.
///
/// Both numbers are expressed in the timer frames the protocol itself
/// creates. `rise_at` is the tick count, since the cycle's arming reset,
/// at which the line first reads high — `None` if it stays low for good.
/// `high_ticks` is the tick count, since the mid-cycle reset that restarts
/// the measured interval, at which the line falls back low.
#[derive(Clone, Copy)]
pub struct EchoScript {
    pub rise_at: Option<u16>,
    pub high_ticks: u16,
}

impl EchoScript {
    /// Level of the echo line while the protocol awaits the rise, as a
    /// function of the arming-frame tick count.
    pub open spec fn spec_high_in_rise_frame(&self, ticks: u16) -> bool {
        match self.rise_at {
            Some(r) => ticks >= r,
            None => false,
        }
    }

    /// Level of the echo line while the protocol awaits the fall, as a
    /// function of the fall-frame tick count.
    pub open spec fn spec_high_in_fall_frame(&self, ticks: u16) -> bool {
        ticks < self.high_ticks
    }

    /// Poll the line during the rise wait: true while it still reads low.
    pub fn is_low_awaiting_rise(&self, ticks: u16) -> (b: bool)
        ensures
            b == !self.spec_high_in_rise_frame(ticks),
    {
        match self.rise_at {
            Some(r) => ticks < r,
            None => true,
        }
    }

    /// Poll the line during the fall wait: true while it still reads high.
    pub fn is_high_awaiting_fall(&self, ticks: u16) -> (b: bool)
        ensures
            b == self.spec_high_in_fall_frame(ticks),
    {
        ticks < self.high_ticks
    }
}

} // verus!

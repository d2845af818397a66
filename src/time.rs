//! Frequencies and durations.
use vstd::prelude::*;

verus! {

/// Number of microseconds in one second.
pub const MICROS_PER_SECOND: u64 = 1_000_000;

/// A frequency in hertz.
#[derive(Clone, Copy, Debug, PartialEq, Eq, Structural)]
pub struct Hertz(pub u32);

/// A non-negative duration in microseconds.
#[derive(Clone, Copy, Debug, PartialEq, Eq, Structural)]
pub struct MicroSecond(pub u32);

/// Clock ticks elapsed in `us` microseconds at `hz` hertz, truncated.
pub open spec fn ticks_of(us: nat, hz: nat) -> nat {
    (us * hz) / 1_000_000
}

impl MicroSecond {
    /// Number of ticks of a clock running at `clk` that fit in this duration.
    pub fn ticks(&self, clk: Hertz) -> (r: u64)
        ensures
            r == ticks_of(self.0 as nat, clk.0 as nat),
    {
        let us = self.0 as u64;
        let hz = clk.0 as u64;
        assert(us * hz <= 0xffff_ffffu64 * 0xffff_ffffu64) by (nonlinear_arith)
            requires
                us <= 0xffff_ffffu64,
                hz <= 0xffff_ffffu64,
        ;
        us * hz / MICROS_PER_SECOND
    }
}

} // verus!

//! Timing and analog-output layer for a microcontroller: converts durations
//! into timer register settings, drives count-down timers over a model of
//! their register blocks, and runs the DAC trim calibration search.
use vstd::prelude::*;

pub mod convert;
pub mod dac;
pub mod rcc;
pub mod time;
pub mod timer;
pub mod timeout;

verus! {

} // verus!

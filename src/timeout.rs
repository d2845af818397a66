//! Conversion of a tick count into counter register settings.
use vstd::prelude::*;
use crate::convert::{narrow_u16, widen_u32};

verus! {

/// Ticks counted by a 16-bit counter before it wraps.
pub const COUNTER_SPAN: u64 = 0x1_0000;

/// Exclusive bound on the system tick counter's 24-bit reload value.
pub const SYST_SPAN: u64 = 0x100_0000;

/// The requested duration cannot be represented with the available clock.
#[derive(Clone, Copy, Debug, PartialEq, Eq, Structural)]
pub enum TimeoutError {
    Unrepresentable,
}

/// Prescaler and auto-reload values for a general-purpose timer.
#[derive(Clone, Copy, Debug, PartialEq, Eq, Structural)]
pub struct TimeoutConfig {
    pub prescale: u16,
    pub reload: u32,
}

/// Prescale divisor chosen for `ticks`: the number of whole counter spans.
pub open spec fn prescale_of(ticks: nat) -> nat {
    ticks / 0x1_0000
}

/// Whether a general-purpose timer can count `ticks` with a 16-bit prescaler.
pub open spec fn gp_fits(ticks: nat) -> bool {
    prescale_of(ticks) <= u16::MAX
}

/// Whether the system tick counter can count `ticks`.
pub open spec fn syst_fits(ticks: nat) -> bool {
    ticks < 0x100_0000
}

/// The configuration a general-purpose timer gets for `ticks`.
pub open spec fn gp_config(ticks: nat) -> TimeoutConfig {
    TimeoutConfig {
        prescale: prescale_of(ticks) as u16,
        reload: (ticks / (prescale_of(ticks) + 1)) as u32,
    }
}

proof fn lemma_reload_below_span(t: nat)
    ensures
        t / (t / 0x1_0000 + 1) < 0x1_0000,
{
    let p = t / 0x1_0000;
    assert(t < (p + 1) * 0x1_0000) by (nonlinear_arith)
        requires
            p == t / 0x1_0000,
    ;
    assert(t / (p + 1) < 0x1_0000) by (nonlinear_arith)
        requires
            t < (p + 1) * 0x1_0000,
    ;
}

/// Prescaler and reload for a general-purpose timer with a 16-bit counter:
/// the prescale is the number of whole counter spans in `ticks`, and the
/// reload divides `ticks` by the prescale plus one.
pub fn resolve_gp(ticks: u64) -> (r: Result<TimeoutConfig, TimeoutError>)
    ensures
        r is Ok <==> gp_fits(ticks as nat),
        r matches Ok(c) ==> c == gp_config(ticks as nat),
        r matches Ok(c) ==> c.reload < COUNTER_SPAN,
        r matches Err(e) ==> e == TimeoutError::Unrepresentable,
{
    match narrow_u16(ticks / COUNTER_SPAN) {
        None => Err(TimeoutError::Unrepresentable),
        Some(psc) => {
            proof {
                lemma_reload_below_span(ticks as nat);
                assert(ticks < 0x1_0000_0000) by (nonlinear_arith)
                    requires
                        ticks / 0x1_0000 <= 0xffff,
                ;
            }
            let divisor = widen_u32(psc) + 1;
            let arr = (ticks as u32) / divisor;
            Ok(TimeoutConfig { prescale: psc, reload: arr })
        },
    }
}

/// Reload value for the system tick counter, which has no prescaler and a
/// 24-bit reload register.
pub fn resolve_syst(ticks: u64) -> (r: Result<u32, TimeoutError>)
    ensures
        r is Ok <==> syst_fits(ticks as nat),
        r matches Ok(v) ==> v == ticks,
        r matches Err(e) ==> e == TimeoutError::Unrepresentable,
{
    if ticks < SYST_SPAN {
        Ok(ticks as u32)
    } else {
        Err(TimeoutError::Unrepresentable)
    }
}

} // verus!

//! Checked integer conversions, provided by the `cast` crate.
use vstd::prelude::*;

verus! {

/// Relies on `cast::u16` from `u64`: `Ok(x as u16)` when `x` is at most
/// `u16::MAX`, `Err(Overflow)` otherwise.
#[verifier::external_body]
pub(crate) fn narrow_u16(x: u64) -> (r: Option<u16>)
    ensures
        x <= u16::MAX ==> r == Some(x as u16),
        x > u16::MAX ==> r is None,
{
    cast::u16(x).ok()
}

/// Relies on `cast::u32` from `u16`: a lossless promotion.
#[verifier::external_body]
pub(crate) fn widen_u32(x: u16) -> (r: u32)
    ensures
        r == x,
{
    cast::u32(x)
}

} // verus!

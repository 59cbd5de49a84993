//! Integer helpers shared by the plugins: saturating arithmetic stated over
//! mathematical integers.

use vstd::prelude::*;

verus! {

/// `x` clamped into the range of `u64`.
pub open spec fn sat_u64(x: int) -> u64 {
    if x > u64::MAX as int {
        u64::MAX
    } else if x < 0 {
        0
    } else {
        x as u64
    }
}

/// `x` clamped into the range of `u32`.
pub open spec fn sat_u32(x: int) -> u32 {
    if x > u32::MAX as int {
        u32::MAX
    } else if x < 0 {
        0
    } else {
        x as u32
    }
}

/// Saturating multiplication of two `u64` values.
pub fn sat_mul_u64(x: u64, y: u64) -> (r: u64)
    ensures
        r == sat_u64(x * y),
{
    proof {
        vstd::arithmetic::mul::lemma_mul_nonnegative(x as int, y as int);
    }
    match x.checked_mul(y) {
        Some(v) => v,
        None => u64::MAX,
    }
}

/// Saturating multiplication of two `u32` values.
pub fn sat_mul_u32(x: u32, y: u32) -> (r: u32)
    ensures
        r == sat_u32(x * y),
{
    proof {
        vstd::arithmetic::mul::lemma_mul_nonnegative(x as int, y as int);
    }
    match x.checked_mul(y) {
        Some(v) => v,
        None => u32::MAX,
    }
}

} // verus!

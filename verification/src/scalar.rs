//! Fixed-point scalars.
//!
//! A scalar is an `i64` counted in millionths: `1_000_000` stands for 1.0,
//! `300_000` for 0.30. Sums saturate at the ends of the `i64` range, and the
//! unit-interval dimensions are clamped to `[0, UNIT]`.

use vstd::prelude::*;

verus! {

/// The fixed-point representation of 1.0.
pub const UNIT: i64 = 1_000_000;

/// `v` bounded to the closed interval `[lo, hi]`.
pub open spec fn clamp_int(v: int, lo: int, hi: int) -> int {
    if v < lo {
        lo
    } else if v > hi {
        hi
    } else {
        v
    }
}

/// The sum `a + b`, saturated to the range of `i64`.
pub open spec fn saturating_sum(a: int, b: int) -> int {
    clamp_int(a + b, i64::MIN as int, i64::MAX as int)
}

/// The sum `a + b`, clamped to the unit interval `[0, UNIT]`.
pub open spec fn unit_sum(a: int, b: int) -> int {
    clamp_int(a + b, 0, UNIT as int)
}

/// Bounds `v` to `[lo, hi]`.
pub fn clamp(v: i64, lo: i64, hi: i64) -> (r: i64)
    requires
        lo <= hi,
    ensures
        r == clamp_int(v as int, lo as int, hi as int),
{
    if v < lo {
        lo
    } else if v > hi {
        hi
    } else {
        v
    }
}

/// Adds a delta to a scalar, saturating instead of overflowing.
pub fn add_saturating(a: i64, b: i64) -> (r: i64)
    ensures
        r == saturating_sum(a as int, b as int),
{
    let s: i128 = a as i128 + b as i128;
    if s < i64::MIN as i128 {
        i64::MIN
    } else if s > i64::MAX as i128 {
        i64::MAX
    } else {
        s as i64
    }
}

/// Adds a delta to a scalar and clamps the sum to `[0, UNIT]`.
pub fn add_unit_clamped(a: i64, b: i64) -> (r: i64)
    ensures
        r == unit_sum(a as int, b as int),
        0 <= r <= UNIT,
{
    let s: i128 = a as i128 + b as i128;
    if s < 0 {
        0
    } else if s > UNIT as i128 {
        UNIT
    } else {
        s as i64
    }
}

} // verus!

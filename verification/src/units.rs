//! Fixed-point units shared by the whole simulation.
//!
//! Every quantity is an integer. Lengths and positions count millionths of an
//! arena unit. Rates (a velocity per second, an axis deflection, the input
//! sensitivity) count thousandths. Elapsed time counts milliseconds. A rate
//! multiplied by a rate or by a time is therefore a length, with no division
//! and no rounding anywhere.

use vstd::prelude::*;

verus! {

/// Number of steps of a rate or of a time in one whole.
pub const MILLI: i64 = 1_000;

/// Number of length steps in one arena unit.
pub const UNIT: i64 = 1_000_000;

/// The value of `i64` nearest to `v`.
pub open spec fn saturate(v: int) -> int {
    if v < i64::MIN {
        i64::MIN as int
    } else if v > i64::MAX {
        i64::MAX as int
    } else {
        v
    }
}

/// `v` held between `lo` and `hi`: first capped at `hi`, then raised to `lo`.
/// Where the band is empty (`hi < lo`) the result is `lo`.
pub open spec fn clamp(v: int, lo: int, hi: int) -> int {
    let capped = if v > hi { hi } else { v };
    if capped < lo {
        lo
    } else {
        capped
    }
}

/// The opposite of `v`, kept inside `i64`: the lowest value turns into the highest.
pub open spec fn reversed(v: int) -> int {
    saturate(-v)
}

/// Brings a wide intermediate result back into `i64`, stopping at the ends of the range.
pub fn saturating_narrow(v: i128) -> (r: i64)
    ensures
        r == saturate(v as int),
{
    if v < i64::MIN as i128 {
        i64::MIN
    } else if v > i64::MAX as i128 {
        i64::MAX
    } else {
        v as i64
    }
}

/// Holds a wide intermediate result inside the band from `lo` to `hi`.
pub fn clamp_narrow(v: i128, lo: i64, hi: i64) -> (r: i64)
    ensures
        r == clamp(v as int, lo as int, hi as int),
{
    let capped: i128 = if v > hi as i128 { hi as i128 } else { v };
    if capped < lo as i128 {
        lo
    } else {
        capped as i64
    }
}

/// Flips the sign of `v` without overflow.
pub fn reverse(v: i64) -> (r: i64)
    ensures
        r == reversed(v as int),
{
    if v == i64::MIN {
        i64::MAX
    } else {
        -v
    }
}

/// The exact product of a rate and a number of milliseconds: a length, far
/// inside the range of `i128`.
pub fn scale_by_time(rate: i64, millis: u32) -> (r: i128)
    ensures
        r == rate * millis,
        -0x8000_0000_0000_0000_0000_0000 <= r <= 0x8000_0000_0000_0000_0000_0000,
{
    assert(-0x8000_0000_0000_0000 * 0x1_0000_0000 <= rate * millis <= 0x8000_0000_0000_0000
        * 0x1_0000_0000) by (nonlinear_arith)
        requires
            -0x8000_0000_0000_0000 <= rate <= 0x8000_0000_0000_0000,
            0 <= millis <= 0x1_0000_0000,
    ;
    (rate as i128) * (millis as i128)
}

/// A clamped value lies in its band whenever the band is not empty.
pub proof fn clamp_stays_in_band(v: int, lo: int, hi: int)
    requires
        lo <= hi,
    ensures
        lo <= clamp(v, lo, hi) <= hi,
        lo <= v <= hi ==> clamp(v, lo, hi) == v,
{
}

/// Reversing flips the sign, and is exact for every value but the lowest.
pub proof fn reversed_flips_sign(v: int)
    requires
        i64::MIN <= v <= i64::MAX,
    ensures
        i64::MIN <= reversed(v) <= i64::MAX,
        v > 0 ==> reversed(v) < 0,
        v < 0 ==> reversed(v) > 0,
        v == 0 ==> reversed(v) == 0,
        v > i64::MIN ==> reversed(v) == -v,
{
}

} // verus!

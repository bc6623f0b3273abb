//! Fixed-point scalar helpers. A value represents one thousandth of a
//! real unit; angles are milli-radians. Division truncates toward zero,
//! like hardware signed division.

use vstd::prelude::*;

verus! {

/// Half a turn in milli-radians.
pub const PI_MILLI: i64 = 3142;

/// A quarter turn in milli-radians.
pub const HALF_PI_MILLI: i64 = 1571;

/// The absolute value of a mathematical integer.
pub open spec fn iabs(a: int) -> int {
    if a < 0 {
        -a
    } else {
        a
    }
}

/// Integer division truncated toward zero (the quotient of the absolute
/// values, negated when the signs differ).
pub open spec fn divt(a: int, b: int) -> int
    recommends
        b != 0,
{
    if (a < 0) != (b < 0) {
        -(iabs(a) / iabs(b))
    } else {
        iabs(a) / iabs(b)
    }
}

/// The value clamped into `[lo, hi]`.
pub open spec fn spec_clamp(a: int, lo: int, hi: int) -> int {
    if a < lo {
        lo
    } else if a > hi {
        hi
    } else {
        a
    }
}

/// The absolute value of an `i64` away from the minimum.
pub fn abs_i64(a: i64) -> (r: i64)
    requires
        a > i64::MIN,
    ensures
        r == iabs(a as int),
{
    if a < 0 {
        -a
    } else {
        a
    }
}

/// Truncating division of two `i128` values, by sign-splitting onto the
/// unsigned division the machine provides.
pub fn divt_i128(a: i128, b: i128) -> (q: i128)
    requires
        a > i128::MIN,
        b > i128::MIN,
        b != 0,
    ensures
        q == divt(a as int, b as int),
        iabs(q as int) <= iabs(a as int),
{
    let ua: u128 = if a < 0 { (-a) as u128 } else { a as u128 };
    let ub: u128 = if b < 0 { (-b) as u128 } else { b as u128 };
    let uq: u128 = ua / ub;
    proof {
        assert(uq <= ua) by (nonlinear_arith)
            requires uq == ua / ub, ub >= 1, ua >= 0;
    }
    if (a < 0) != (b < 0) {
        -(uq as i128)
    } else {
        uq as i128
    }
}

/// The `i64` clamped into `[lo, hi]`.
pub fn clamp_i64(a: i64, lo: i64, hi: i64) -> (r: i64)
    requires
        lo <= hi,
    ensures
        r == spec_clamp(a as int, lo as int, hi as int),
{
    if a < lo {
        lo
    } else if a > hi {
        hi
    } else {
        a
    }
}

/// The sine approximation used on `[0, pi]`: a rational polynomial that
/// is exact at 0, a quarter turn and a half turn, and stays in `[0, 1]`.
pub open spec fn spec_sin_half(a: int) -> int {
    16000 * (a * (PI_MILLI - a)) / (5 * PI_MILLI * PI_MILLI - 4 * (a * (PI_MILLI - a)))
}

/// The milli-unit sine of a milli-radian angle in `[-pi, pi]`: odd
/// symmetry around zero over the half-turn approximation.
pub open spec fn spec_sin(a: int) -> int {
    if a < 0 {
        -spec_sin_half(-a)
    } else {
        spec_sin_half(a)
    }
}

/// The milli-unit cosine of a milli-radian angle in `[-pi, pi]`, as the
/// sine of the complementary angle.
pub open spec fn spec_cos(a: int) -> int {
    spec_sin(HALF_PI_MILLI - iabs(a))
}

fn sin_half(a: i64) -> (s: i64)
    requires
        0 <= a <= PI_MILLI,
    ensures
        s == spec_sin_half(a as int),
        0 <= s <= 1000,
{
    proof {
        assert(0 <= a * (PI_MILLI - a) && 4 * (a * (PI_MILLI - a)) <= PI_MILLI * PI_MILLI) by (nonlinear_arith)
            requires 0 <= a <= PI_MILLI;
    }
    let p: i64 = a * (PI_MILLI - a);
    let num: i64 = 16000 * p;
    let denom: i64 = 5 * PI_MILLI * PI_MILLI - 4 * p;
    proof {
        assert(num <= 1000 * denom);
        assert(num / denom <= 1000 && num / denom >= 0) by (nonlinear_arith)
            requires num <= 1000 * denom, denom > 0, num >= 0;
    }
    num / denom
}

/// The milli-unit sine of an angle in `[-pi, pi]` milli-radians.
pub fn fx_sin(a: i64) -> (s: i64)
    requires
        -PI_MILLI <= a <= PI_MILLI,
    ensures
        s == spec_sin(a as int),
        -1000 <= s <= 1000,
{
    if a < 0 {
        -sin_half(-a)
    } else {
        sin_half(a)
    }
}

/// The milli-unit cosine of an angle in `[-pi, pi]` milli-radians.
pub fn fx_cos(a: i64) -> (c: i64)
    requires
        -PI_MILLI <= a <= PI_MILLI,
    ensures
        c == spec_cos(a as int),
        -1000 <= c <= 1000,
{
    let abs_a: i64 = abs_i64(a);
    fx_sin(HALF_PI_MILLI - abs_a)
}

} // verus!

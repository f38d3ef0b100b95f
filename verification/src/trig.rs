//! Fixed-point angles and trigonometry.
//!
//! Angles are `i64` milli-radians; a full turn is `TAU_MILLI`. The sine is
//! the Bhaskara I rational approximation evaluated in integers, scaled so a
//! unit result is `SCALE`. Its half-wave peak is exactly `SCALE` and its
//! magnitude never exceeds `SCALE`.

use vstd::prelude::*;
use crate::fixed::SCALE;

verus! {

/// Half a turn in milli-radians.
pub const PI_MILLI: i64 = 3142;

/// A full turn in milli-radians.
pub const TAU_MILLI: i64 = 6283;

/// A quarter turn in milli-radians.
pub const HALF_PI_MILLI: i64 = 1571;

/// Euclidean remainder of an angle by a full turn: the result is in
/// `[0, TAU_MILLI)`.
pub open spec fn norm_angle(a: int) -> int {
    a % (TAU_MILLI as int)
}

/// Bhaskara's half-wave sine on `[0, PI_MILLI]`, scaled by `SCALE`.
pub open spec fn sin_half_spec(x: int) -> int {
    (16 * x * (PI_MILLI - x) * (SCALE as int)) / (
    5 * (PI_MILLI as int) * (PI_MILLI as int) - 4 * x * (PI_MILLI - x))
}

/// Full-circle fixed-point sine of an angle in milli-radians.
pub open spec fn sin_spec(theta: int) -> int {
    if norm_angle(theta) < PI_MILLI {
        sin_half_spec(norm_angle(theta))
    } else {
        -sin_half_spec(norm_angle(theta) - PI_MILLI)
    }
}

/// Fixed-point cosine: the sine a quarter turn ahead.
pub open spec fn cos_spec(theta: int) -> int {
    sin_spec(theta + HALF_PI_MILLI)
}

/// Normalize an angle into `[0, TAU_MILLI)`.
pub fn mod_tau(a: i64) -> (r: i64)
    ensures
        r == norm_angle(a as int),
        0 <= r < TAU_MILLI,
{
    if a >= 0 {
        a % TAU_MILLI
    } else {
        let b: i64 = -(a + 1);
        let m: i64 = b % TAU_MILLI;
        TAU_MILLI - 1 - m
    }
}

/// Half-wave sine on `[0, PI_MILLI]`: nonnegative and at most `SCALE`.
fn sin_half(x: i64) -> (r: i64)
    requires
        0 <= x <= PI_MILLI,
    ensures
        r == sin_half_spec(x as int),
        0 <= r <= SCALE,
{
    proof {
        assert(0 <= (x as int) * (PI_MILLI - x as int)
            && 4 * ((x as int) * (PI_MILLI - x as int)) <= (PI_MILLI as int) * (
        PI_MILLI as int)) by (nonlinear_arith)
            requires
                0 <= x <= PI_MILLI,
        ;
    }
    let m: i64 = x * (PI_MILLI - x);
    let num: i64 = 16 * m * SCALE;
    let den: i64 = 5 * PI_MILLI * PI_MILLI - 4 * m;
    let r: i64 = num / den;
    proof {
        assert(num as int == 16 * (x as int) * (PI_MILLI - x as int) * (SCALE as int)
            && den as int == 5 * (PI_MILLI as int) * (PI_MILLI as int) - 4 * (x as int) * (
        PI_MILLI - x as int)) by (nonlinear_arith)
            requires
                m == (x as int) * (PI_MILLI - x as int),
                num == 16 * m * (SCALE as int),
                den == 5 * (PI_MILLI as int) * (PI_MILLI as int) - 4 * m,
        ;
        assert(num <= (SCALE as int) * den) by (nonlinear_arith)
            requires
                num == 16 * m * (SCALE as int),
                den == 5 * (PI_MILLI as int) * (PI_MILLI as int) - 4 * m,
                20 * m <= 5 * (PI_MILLI as int) * (PI_MILLI as int),
        ;
        assert((num as int) / (den as int) <= ((SCALE as int) * (den as int)) / (den as int)) by (nonlinear_arith)
            requires
                0 <= num <= (SCALE as int) * den,
                0 < den,
        ;
        assert(((SCALE as int) * (den as int)) / (den as int) == SCALE as int) by (nonlinear_arith)
            requires
                0 < den,
        ;
        assert(r as int == (num as int) / (den as int));
        assert(r == sin_half_spec(x as int));
    }
    r
}

/// Fixed-point sine of an angle in milli-radians, in `[-SCALE, SCALE]`.
pub fn sin_milli(theta: i64) -> (r: i64)
    ensures
        r == sin_spec(theta as int),
        -SCALE <= r <= SCALE,
{
    let t: i64 = mod_tau(theta);
    if t < PI_MILLI {
        sin_half(t)
    } else {
        -sin_half(t - PI_MILLI)
    }
}

/// Fixed-point cosine of an angle in milli-radians, in `[-SCALE, SCALE]`.
pub fn cos_milli(theta: i64) -> (r: i64)
    requires
        theta + HALF_PI_MILLI <= i64::MAX,
    ensures
        r == cos_spec(theta as int),
        -SCALE <= r <= SCALE,
{
    sin_milli(theta + HALF_PI_MILLI)
}

} // verus!

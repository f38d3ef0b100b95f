//! Fixed-point scalar arithmetic for the simulation core.
//!
//! Every dynamic scalar of the simulation (a coordinate, a speed, a health
//! value, a damping coefficient) is an `i64` in milli-units, kept inside
//! `[-LIM, LIM]` by saturation. The helpers here perform the saturating
//! operations and say exactly what they compute.

use vstd::prelude::*;

verus! {

/// Fixed-point scale: values carry three decimal digits.
pub const SCALE: i64 = 1000;

/// Saturation bound on every dynamic scalar of the simulation.
pub const LIM: i64 = 1_000_000_000;

/// Largest tick duration the simulation accepts, in milliseconds.
pub const MAX_DT: i64 = 60_000;

/// Absolute value of a mathematical integer.
pub open spec fn abs(x: int) -> int {
    if x >= 0 {
        x
    } else {
        -x
    }
}

/// Division truncated toward zero, as Rust's `/` computes it.
pub open spec fn div_trunc(a: int, b: int) -> int {
    if a >= 0 {
        a / b
    } else {
        -((-a) / b)
    }
}

/// Clamp a mathematical integer into the simulation's scalar range.
pub open spec fn clamp(x: int) -> int {
    if x > LIM as int {
        LIM as int
    } else if x < -(LIM as int) {
        -(LIM as int)
    } else {
        x
    }
}

/// What `mul_div` computes: `a * b / c` truncated toward zero, then clamped.
pub open spec fn mul_div_spec(a: int, b: int, c: int) -> int {
    clamp(div_trunc(a * b, c))
}

/// What `add_clamped` computes.
pub open spec fn add_clamped_spec(a: int, b: int) -> int {
    clamp(a + b)
}

/// Truncated division shrinks magnitudes: if `|x| <= d * k` then
/// `|x / d| <= k`.
pub proof fn lemma_div_trunc_bound(x: int, d: int, k: int)
    requires
        d > 0,
        k >= 0,
        abs(x) <= d * k,
    ensures
        abs(div_trunc(x, d)) <= k,
{
    if x >= 0 {
        assert(x / d <= k) by (nonlinear_arith)
            requires
                d > 0,
                k >= 0,
                0 <= x <= d * k,
        ;
        assert(x / d >= 0) by (nonlinear_arith)
            requires
                d > 0,
                x >= 0,
        ;
    } else {
        assert((-x) / d <= k) by (nonlinear_arith)
            requires
                d > 0,
                k >= 0,
                0 <= -x <= d * k,
        ;
        assert((-x) / d >= 0) by (nonlinear_arith)
            requires
                d > 0,
                -x >= 0,
        ;
    }
}

/// Saturating addition of two scalars.
pub fn add_clamped(a: i64, b: i64) -> (r: i64)
    ensures
        r == add_clamped_spec(a as int, b as int),
{
    let s: i128 = a as i128 + b as i128;
    if s > LIM as i128 {
        LIM
    } else if s < -(LIM as i128) {
        -LIM
    } else {
        s as i64
    }
}

/// Saturating fixed-point multiply-then-divide: `a * b / c` truncated toward
/// zero, clamped into the scalar range. The workhorse behind velocity
/// integration, drag, and knockback scaling.
pub fn mul_div(a: i64, b: i64, c: i64) -> (r: i64)
    requires
        c > 0,
    ensures
        r == mul_div_spec(a as int, b as int, c as int),
{
    let neg: bool = (a < 0) != (b < 0);
    let ma: u128 = if a >= 0 {
        a as u128
    } else {
        (-(a as i128)) as u128
    };
    let mb: u128 = if b >= 0 {
        b as u128
    } else {
        (-(b as i128)) as u128
    };
    proof {
        assert(ma == abs(a as int));
        assert(mb == abs(b as int));
        assert(ma * mb == abs((a as int) * (b as int))) by (nonlinear_arith)
            requires
                ma == abs(a as int),
                mb == abs(b as int),
        ;
        assert(ma * mb <= 0x8000_0000_0000_0000u128 * 0x8000_0000_0000_0000u128)
            by (nonlinear_arith)
            requires
                ma <= 0x8000_0000_0000_0000u128,
                mb <= 0x8000_0000_0000_0000u128,
        ;
    }
    let q: u128 = (ma * mb) / (c as u128);
    let qc: i64 = if q > LIM as u128 {
        LIM
    } else {
        q as i64
    };
    let r: i64 = if neg {
        -qc
    } else {
        qc
    };
    proof {
        let p: int = (a as int) * (b as int);
        assert(q == abs(p) / (c as int));
        assert(qc == clamp(q as int));
        if neg {
            assert(p <= 0) by (nonlinear_arith)
                requires
                    (a < 0) != (b < 0),
                    p == (a as int) * (b as int),
            ;
            assert(div_trunc(p, c as int) == -(q as int));
            assert(r == clamp(-(q as int)));
        } else {
            assert(p >= 0) by (nonlinear_arith)
                requires
                    (a < 0) == (b < 0),
                    p == (a as int) * (b as int),
            ;
            assert(div_trunc(p, c as int) == q as int);
        }
    }
    r
}

/// Integer square root: the largest `r` with `r * r <= x`.
pub fn isqrt(x: u64) -> (r: u64)
    ensures
        r * r <= x,
        x < (r + 1) * (r + 1),
        r <= 0x1_0000_0000,
{
    let mut lo: u64 = 0;
    let mut hi: u64 = 0x1_0000_0000;
    proof {
        assert((hi as int) * (hi as int) > x as int);
    }
    while lo + 1 < hi
        invariant
            lo < hi <= 0x1_0000_0000,
            (lo as int) * (lo as int) <= x as int,
            (hi as int) * (hi as int) > x as int,
        decreases hi - lo,
    {
        let mid: u64 = lo + (hi - lo) / 2;
        proof {
            assert((mid as u128) * (mid as u128) < 0x2_0000_0000_0000_0000u128)
                by (nonlinear_arith)
                requires
                    mid <= 0x1_0000_0000u64,
            ;
        }
        if (mid as u128) * (mid as u128) <= x as u128 {
            lo = mid;
        } else {
            hi = mid;
        }
    }
    lo
}

} // verus!

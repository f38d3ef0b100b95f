//! Planar fixed-point vectors: positions and translational speeds in
//! milli-units, plus the squared-distance and unit-direction computations the
//! collision detector builds on.

use vstd::prelude::*;
use crate::fixed::LIM;
use crate::fixed::SCALE;
use crate::fixed::abs;
use crate::fixed::add_clamped;
use crate::fixed::add_clamped_spec;
use crate::fixed::div_trunc;
use crate::fixed::isqrt;
use crate::fixed::mul_div;
use crate::fixed::mul_div_spec;

verus! {

/// A planar vector with milli-unit components.
#[derive(Clone, Copy, Debug, PartialEq, Eq, Structural)]
pub struct Vec2 {
    pub x: i64,
    pub y: i64,
}

/// Both components inside the simulation's scalar range.
pub open spec fn wf_vec2(v: Vec2) -> bool {
    &&& -LIM <= v.x <= LIM
    &&& -LIM <= v.y <= LIM
}

/// Squared distance between two well-formed points.
pub open spec fn dist_sq_spec(a: Vec2, b: Vec2) -> int {
    (b.x - a.x) * (b.x - a.x) + (b.y - a.y) * (b.y - a.y)
}

/// The integer square root: largest `r` with `r * r <= n`.
pub open spec fn sqrt_floor(n: nat) -> nat
    decreases n,
{
    if n == 0 {
        0
    } else {
        let s = sqrt_floor((n - 1) as nat);
        if (s + 1) * (s + 1) <= n {
            s + 1
        } else {
            s
        }
    }
}

/// `sqrt_floor` brackets its argument between consecutive squares.
pub proof fn lemma_sqrt_floor_bracket(n: nat)
    ensures
        (sqrt_floor(n) as int) * (sqrt_floor(n) as int) <= n as int,
        (n as int) < ((sqrt_floor(n) as int) + 1) * ((sqrt_floor(n) as int) + 1),
    decreases n,
{
    if n == 0 {
        assert(sqrt_floor(n) == 0);
    } else {
        let m = (n - 1) as nat;
        lemma_sqrt_floor_bracket(m);
        let s: int = sqrt_floor(m) as int;
        assert(sqrt_floor(n) == if (s + 1) * (s + 1) <= n {
            s + 1
        } else {
            s
        });
        let r: int = sqrt_floor(n) as int;
        if (s + 1) * (s + 1) <= n {
            assert(r == s + 1);
            assert(n < (r + 1) * (r + 1)) by (nonlinear_arith)
                requires
                    m < r * r,
                    n == m + 1,
                    r >= 0,
            ;
        } else {
            assert(r == s);
            assert(n < (r + 1) * (r + 1));
        }
        assert(r * r <= n);
        assert(0 <= (r + 1) * (r + 1) && 0 <= r * r) by (nonlinear_arith)
            requires
                r >= 0,
        ;
        assert((sqrt_floor(n) as int) * (sqrt_floor(n) as int) <= n as int);
        assert((n as int) < ((sqrt_floor(n) as int) + 1) * ((sqrt_floor(n) as int) + 1));
    }
}

/// Any integer bracketed between the same consecutive squares is `sqrt_floor`.
pub proof fn lemma_sqrt_unique(n: nat, r: nat)
    requires
        r * r <= n,
        n < (r + 1) * (r + 1),
    ensures
        r == sqrt_floor(n),
{
    lemma_sqrt_floor_bracket(n);
    let s = sqrt_floor(n);
    assert(r == s) by (nonlinear_arith)
        requires
            r * r <= n < (r + 1) * (r + 1),
            s * s <= n < (s + 1) * (s + 1),
    ;
}

/// Distance between two well-formed points, rounded down to a milli-unit.
pub open spec fn dist_spec(a: Vec2, b: Vec2) -> int {
    sqrt_floor(dist_sq_spec(a, b) as nat) as int
}

/// Unit direction from `a` toward `b`, scaled by `SCALE`; the fallback for
/// coincident points is the positive x axis.
pub open spec fn dir_spec(a: Vec2, b: Vec2) -> Vec2 {
    if dist_sq_spec(a, b) == 0 {
        Vec2 { x: SCALE, y: 0 }
    } else {
        Vec2 {
            x: div_trunc((b.x - a.x) * SCALE, dist_spec(a, b)) as i64,
            y: div_trunc((b.y - a.y) * SCALE, dist_spec(a, b)) as i64,
        }
    }
}

/// Squared distance between two points.
pub fn dist_sq(a: Vec2, b: Vec2) -> (r: u64)
    requires
        wf_vec2(a),
        wf_vec2(b),
    ensures
        r == dist_sq_spec(a, b),
{
    let dx: i64 = b.x - a.x;
    let dy: i64 = b.y - a.y;
    proof {
        assert(0 <= dx * dx <= 4_000_000_000_000_000_000 && 0 <= dy * dy
            <= 4_000_000_000_000_000_000) by (nonlinear_arith)
            requires
                -2 * (LIM as int) <= dx <= 2 * (LIM as int),
                -2 * (LIM as int) <= dy <= 2 * (LIM as int),
                LIM == 1_000_000_000,
        ;
    }
    (dx * dx) as u64 + (dy * dy) as u64
}

/// `v` plus `w * k / c`, each component saturated: the shape of velocity
/// integration (`k` a duration, `c` the scale) and of knockback impulses.
pub open spec fn add_scaled_spec(v: Vec2, w: Vec2, k: int, c: int) -> Vec2 {
    Vec2 {
        x: add_clamped_spec(v.x as int, mul_div_spec(w.x as int, k, c)) as i64,
        y: add_clamped_spec(v.y as int, mul_div_spec(w.y as int, k, c)) as i64,
    }
}

/// Compute `v + w * k / c` with saturation.
pub fn add_scaled(v: Vec2, w: Vec2, k: i64, c: i64) -> (r: Vec2)
    requires
        c > 0,
    ensures
        r == add_scaled_spec(v, w, k as int, c as int),
        wf_vec2(r),
{
    let rx: i64 = add_clamped(v.x, mul_div(w.x, k, c));
    let ry: i64 = add_clamped(v.y, mul_div(w.y, k, c));
    Vec2 { x: rx, y: ry }
}

/// Unit direction from `a` toward `b`, scaled by `SCALE`, with the positive
/// x axis as the fallback for coincident points. Components never exceed
/// `SCALE` in magnitude.
pub fn unit_toward(a: Vec2, b: Vec2) -> (r: Vec2)
    requires
        wf_vec2(a),
        wf_vec2(b),
    ensures
        r == dir_spec(a, b),
        -SCALE <= r.x <= SCALE,
        -SCALE <= r.y <= SCALE,
{
    let sq: u64 = dist_sq(a, b);
    if sq == 0 {
        Vec2 { x: SCALE, y: 0 }
    } else {
        let d: u64 = isqrt(sq);
        proof {
            lemma_sqrt_unique(sq as nat, d as nat);
            assert(d >= 1) by (nonlinear_arith)
                requires
                    sq >= 1,
                    (sq as int) < ((d as int) + 1) * ((d as int) + 1),
            ;
        }
        let dx: i64 = b.x - a.x;
        let dy: i64 = b.y - a.y;
        proof {
            assert(abs(dx as int) <= d as int && abs(dy as int) <= d as int)
                by (nonlinear_arith)
                requires
                    (dx as int) * (dx as int) + (dy as int) * (dy as int) == sq as int,
                    (d as int) * (d as int) <= sq as int,
                    (sq as int) < ((d as int) + 1) * ((d as int) + 1),
                    sq >= 1,
            ;
            assert(abs((dx as int) * (SCALE as int)) <= (d as int) * (SCALE as int))
                by (nonlinear_arith)
                requires
                    abs(dx as int) <= d as int,
                    SCALE > 0,
            ;
            assert(abs((dy as int) * (SCALE as int)) <= (d as int) * (SCALE as int))
                by (nonlinear_arith)
                requires
                    abs(dy as int) <= d as int,
                    SCALE > 0,
            ;
            crate::fixed::lemma_div_trunc_bound((dx as int) * (SCALE as int), d as int, SCALE as int);
            crate::fixed::lemma_div_trunc_bound((dy as int) * (SCALE as int), d as int, SCALE as int);
        }
        let rx: i64 = mul_div(dx, SCALE, d as i64);
        let ry: i64 = mul_div(dy, SCALE, d as i64);
        Vec2 { x: rx, y: ry }
    }
}

/// Distance between two points, rounded down to a milli-unit.
pub fn dist(a: Vec2, b: Vec2) -> (r: u64)
    requires
        wf_vec2(a),
        wf_vec2(b),
    ensures
        r == dist_spec(a, b),
{
    let sq: u64 = dist_sq(a, b);
    let r: u64 = isqrt(sq);
    proof {
        lemma_sqrt_unique(sq as nat, r as nat);
    }
    r
}

} // verus!

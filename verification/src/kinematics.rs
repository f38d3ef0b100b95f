//! Kinematic integration and drag.
//!
//! Each tick, every live entity with a velocity advances its position by
//! `translation_speed * dt` and its heading by `rotation_speed * dt`
//! (incremental rotation about its own z axis, kept normalized). Drag then
//! damps both speeds by `1 - coefficient * dt`; the factor is deliberately
//! not clamped at zero, so a coefficient-times-dt above one inverts the
//! speed's sign instead of stopping at rest.

use vstd::prelude::*;
use crate::components::Drag;
use crate::components::Entity;
use crate::components::Transform;
use crate::components::Velocity;
use crate::components::wf_entity;
use crate::fixed::LIM;
use crate::fixed::MAX_DT;
use crate::fixed::SCALE;
use crate::fixed::abs;
use crate::fixed::add_clamped_spec;
use crate::fixed::div_trunc;
use crate::fixed::lemma_div_trunc_bound;
use crate::fixed::mul_div;
use crate::fixed::mul_div_spec;
use crate::trig::mod_tau;
use crate::trig::norm_angle;
use crate::vec2::Vec2;
use crate::vec2::add_scaled;
use crate::vec2::add_scaled_spec;
use crate::world::World;
use crate::world::wf_world;

verus! {

/// One drag unit: a coefficient of `DRAG_UNIT` times a dt of one second
/// damps a speed to zero. Equal to `SCALE * SCALE` because coefficients are
/// milli-units per second and durations are milliseconds.
pub const DRAG_UNIT: i64 = 1_000_000;

/// The transform after one tick of integration: position advanced by
/// `speed * dt`, heading advanced by `rotation_speed * dt` and normalized.
pub open spec fn kin_transform(t: Transform, v: Velocity, dt: int) -> Transform {
    Transform {
        pos: add_scaled_spec(t.pos, v.translation_speed, dt, SCALE as int),
        heading: norm_angle(t.heading + mul_div_spec(v.rotation_speed as int, dt, SCALE as int))
            as i64,
    }
}

/// What kinematics does to one store slot: live entities with a velocity
/// move; everything else is untouched.
pub open spec fn kin_entity(e: Entity, dt: int) -> Entity {
    if e.alive && e.velocity is Some {
        Entity { transform: kin_transform(e.transform, e.velocity->0, dt), ..e }
    } else {
        e
    }
}

/// A speed after one tick of drag: `speed * (1 - c * dt)`, in fixed point,
/// saturated. Not clamped at zero: `c * dt` beyond one inverts the sign.
pub open spec fn dragged(speed: int, c: int, dt: int) -> int {
    mul_div_spec(speed, DRAG_UNIT - c * dt, DRAG_UNIT as int)
}

/// A velocity after one tick of drag.
pub open spec fn drag_velocity(v: Velocity, d: Drag, dt: int) -> Velocity {
    Velocity {
        translation_speed: Vec2 {
            x: dragged(v.translation_speed.x as int, d.translational as int, dt) as i64,
            y: dragged(v.translation_speed.y as int, d.translational as int, dt) as i64,
        },
        rotation_speed: dragged(v.rotation_speed as int, d.rotational as int, dt) as i64,
    }
}

/// What drag does to one store slot: only live entities carrying both a
/// velocity and a drag are damped.
pub open spec fn drag_entity(e: Entity, dt: int) -> Entity {
    if e.alive && e.velocity is Some && e.drag is Some {
        Entity { velocity: Some(drag_velocity(e.velocity->0, e.drag->0, dt)), ..e }
    } else {
        e
    }
}

/// Advance every live entity with a velocity by one tick of `dt`
/// milliseconds.
#[verifier::loop_isolation(false)]
pub fn kinematics_step(w: &mut World, dt: i64)
    requires
        wf_world(*old(w)),
        0 <= dt <= MAX_DT,
    ensures
        wf_world(*final(w)),
        final(w).bounds == old(w).bounds,
        final(w).entities@.len() == old(w).entities@.len(),
        forall|i: int|
            0 <= i < old(w).entities@.len() ==> final(w).entities@[i] == kin_entity(
                old(w).entities@[i],
                dt as int,
            ),
{
    let n = w.entities.len();
    let mut i: usize = 0;
    while i < n
        invariant
            0 <= i <= n,
            w.entities@.len() == n,
            w.bounds == old(w).bounds,
            forall|j: int|
                0 <= j < i ==> w.entities@[j] == kin_entity(old(w).entities@[j], dt as int),
            forall|j: int| i <= j < n ==> w.entities@[j] == old(w).entities@[j],
            forall|j: int| 0 <= j < n ==> wf_entity(#[trigger] w.entities@[j]),
        decreases n - i,
    {
        let e = w.entities[i];
        if e.alive && e.velocity.is_some() {
            let v = e.velocity.unwrap();
            let new_pos = add_scaled(e.transform.pos, v.translation_speed, dt, SCALE);
            let delta = mul_div(v.rotation_speed, dt, SCALE);
            let heading = mod_tau(e.transform.heading + delta);
            let mut e2 = e;
            e2.transform = Transform { pos: new_pos, heading };
            w.entities[i] = e2;
        }
        i = i + 1;
    }
}

/// Damp every live entity carrying both a velocity and a drag.
#[verifier::loop_isolation(false)]
pub fn drag_step(w: &mut World, dt: i64)
    requires
        wf_world(*old(w)),
        0 <= dt <= MAX_DT,
    ensures
        wf_world(*final(w)),
        final(w).bounds == old(w).bounds,
        final(w).entities@.len() == old(w).entities@.len(),
        forall|i: int|
            0 <= i < old(w).entities@.len() ==> final(w).entities@[i] == drag_entity(
                old(w).entities@[i],
                dt as int,
            ),
{
    let n = w.entities.len();
    let mut i: usize = 0;
    while i < n
        invariant
            0 <= i <= n,
            w.entities@.len() == n,
            w.bounds == old(w).bounds,
            forall|j: int|
                0 <= j < i ==> w.entities@[j] == drag_entity(old(w).entities@[j], dt as int),
            forall|j: int| i <= j < n ==> w.entities@[j] == old(w).entities@[j],
            forall|j: int| 0 <= j < n ==> wf_entity(#[trigger] w.entities@[j]),
        decreases n - i,
    {
        let e = w.entities[i];
        if e.alive && e.velocity.is_some() && e.drag.is_some() {
            let v = e.velocity.unwrap();
            let d = e.drag.unwrap();
            proof {
                assert(0 <= (d.translational as int) * dt <= 60_000_000_000_000 && 0 <= (
                d.rotational as int) * dt <= 60_000_000_000_000) by (nonlinear_arith)
                    requires
                        0 <= d.translational <= LIM,
                        0 <= d.rotational <= LIM,
                        0 <= dt <= MAX_DT,
                        LIM == 1_000_000_000,
                        MAX_DT == 60_000,
                ;
            }
            let tf = DRAG_UNIT - d.translational * dt;
            let rf = DRAG_UNIT - d.rotational * dt;
            let v2 = Velocity {
                translation_speed: Vec2 {
                    x: mul_div(v.translation_speed.x, tf, DRAG_UNIT),
                    y: mul_div(v.translation_speed.y, tf, DRAG_UNIT),
                },
                rotation_speed: mul_div(v.rotation_speed, rf, DRAG_UNIT),
            };
            let mut e2 = e;
            e2.velocity = Some(v2);
            w.entities[i] = e2;
        }
        i = i + 1;
    }
}

/// An entity with zero velocity is left exactly in place by kinematics: its
/// transform, and the whole slot, are unchanged.
pub proof fn lemma_kinematics_zero_velocity(e: Entity, dt: int)
    requires
        wf_entity(e),
        e.velocity matches Some(v) ==> (v.translation_speed.x == 0 && v.translation_speed.y == 0
            && v.rotation_speed == 0),
    ensures
        kin_entity(e, dt) == e,
{
    if e.alive && e.velocity is Some {
        let v = e.velocity->0;
        assert(0 * dt == 0) by (nonlinear_arith);
        assert(mul_div_spec(0, dt, SCALE as int) == 0);
        assert(add_clamped_spec(e.transform.pos.x as int, 0) == e.transform.pos.x);
        assert(add_clamped_spec(e.transform.pos.y as int, 0) == e.transform.pos.y);
        assert(norm_angle(e.transform.heading + 0) == e.transform.heading);
        assert(kin_transform(e.transform, v, dt) == e.transform);
    }
}

/// A speed after a whole run of drag ticks, one duration per entry.
pub open spec fn dragged_ticks(speed: int, c: int, dts: Seq<int>) -> int
    decreases dts.len(),
{
    if dts.len() == 0 {
        speed
    } else {
        dragged_ticks(dragged(speed, c, dts[0]), c, dts.subrange(1, dts.len() as int))
    }
}

/// As ticks accumulate, drag reduces a speed's magnitude monotonically
/// toward zero and never flips its sign, provided each tick keeps
/// `c * dt` at most one.
pub proof fn lemma_drag_converges(speed: int, c: int, dts: Seq<int>)
    requires
        -LIM <= speed <= LIM,
        0 <= c,
        forall|i: int| 0 <= i < dts.len() ==> 0 <= #[trigger] dts[i],
        forall|i: int| 0 <= i < dts.len() ==> c * #[trigger] dts[i] <= DRAG_UNIT,
    ensures
        abs(dragged_ticks(speed, c, dts)) <= abs(speed),
        speed >= 0 ==> 0 <= dragged_ticks(speed, c, dts) <= speed,
        speed <= 0 ==> speed <= dragged_ticks(speed, c, dts) <= 0,
    decreases dts.len(),
{
    if dts.len() > 0 {
        lemma_drag_monotone(speed, c, dts[0]);
        let rest = dts.subrange(1, dts.len() as int);
        assert forall|i: int| 0 <= i < rest.len() implies 0 <= #[trigger] rest[i] && c * rest[i]
            <= DRAG_UNIT by {
            assert(rest[i] == dts[i + 1]);
        }
        lemma_drag_converges(dragged(speed, c, dts[0]), c, rest);
    }
}

/// Drag with `c * dt` at most one drags a speed monotonically toward zero:
/// the magnitude never grows and the sign never flips.
pub proof fn lemma_drag_monotone(speed: int, c: int, dt: int)
    requires
        -LIM <= speed <= LIM,
        0 <= c,
        0 <= dt,
        c * dt <= DRAG_UNIT,
    ensures
        abs(dragged(speed, c, dt)) <= abs(speed),
        speed >= 0 ==> 0 <= dragged(speed, c, dt) <= speed,
        speed <= 0 ==> speed <= dragged(speed, c, dt) <= 0,
{
    let f = DRAG_UNIT - c * dt;
    assert(0 <= f <= DRAG_UNIT);
    assert(abs(speed * f) <= (DRAG_UNIT as int) * abs(speed)) by (nonlinear_arith)
        requires
            0 <= f <= DRAG_UNIT,
    ;
    lemma_div_trunc_bound(speed * f, DRAG_UNIT as int, abs(speed));
    if speed >= 0 {
        assert(speed * f >= 0) by (nonlinear_arith)
            requires
                speed >= 0,
                f >= 0,
        ;
        assert(div_trunc(speed * f, DRAG_UNIT as int) >= 0);
    } else {
        assert(speed * f <= 0) by (nonlinear_arith)
            requires
                speed <= 0,
                f >= 0,
        ;
        assert(div_trunc(speed * f, DRAG_UNIT as int) <= 0);
    }
}

} // verus!

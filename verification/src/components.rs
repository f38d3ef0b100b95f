//! The component model of the simulation: every datum an entity can carry,
//! with its well-formedness predicate. All scalars are fixed-point `i64`
//! milli-units kept inside `[-LIM, LIM]`; durations are milliseconds.

use vstd::prelude::*;
use crate::fixed::LIM;
use crate::trig::TAU_MILLI;
use crate::vec2::Vec2;
use crate::vec2::wf_vec2;

verus! {

/// Position (milli-units) and heading (milli-radians about the z axis,
/// normalized into `[0, TAU_MILLI)`).
#[derive(Clone, Copy, Debug)]
pub struct Transform {
    pub pos: Vec2,
    pub heading: i64,
}

pub open spec fn wf_transform(t: Transform) -> bool {
    &&& wf_vec2(t.pos)
    &&& 0 <= t.heading < TAU_MILLI
}

/// Translational speed in milli-units per second and rotational speed in
/// milli-radians per second (positive is clockwise).
#[derive(Clone, Copy, Debug)]
pub struct Velocity {
    pub translation_speed: Vec2,
    pub rotation_speed: i64,
}

pub open spec fn wf_velocity(v: Velocity) -> bool {
    &&& wf_vec2(v.translation_speed)
    &&& -LIM <= v.rotation_speed <= LIM
}

/// Per-second damping coefficients, in milli-units (1500 damps speed by a
/// factor `1 - 1.5 * dt` each tick). More drag slows faster.
#[derive(Clone, Copy, Debug)]
pub struct Drag {
    pub translational: i64,
    pub rotational: i64,
}

pub open spec fn wf_drag(d: Drag) -> bool {
    &&& 0 <= d.translational <= LIM
    &&& 0 <= d.rotational <= LIM
}

/// How an entity takes part in penetration resolution: `Prevent` vetoes the
/// pair's resolution entirely, `Yield` absorbs displacement, `NoYield`
/// participates in detection but never moves.
#[derive(Clone, Copy, Debug, PartialEq, Eq, Structural)]
pub enum CollisionResolutionStrat {
    Prevent,
    NoYield,
    Yield,
}

/// Circle collision shape (radius in milli-units) and resolution policy.
#[derive(Clone, Copy, Debug)]
pub struct CollisionConfig {
    pub radius: i64,
    pub collision_resolution: CollisionResolutionStrat,
}

pub open spec fn wf_collision(c: CollisionConfig) -> bool {
    0 <= c.radius <= LIM
}

/// Faction tag gating which pairs can collide.
#[derive(Clone, Copy, Debug, PartialEq, Eq, Structural)]
pub enum Affiliation {
    Friendly,
    Neutral,
    Hostile,
}

/// Current and maximum hit points; the current value may transiently go
/// negative before a despawn pass runs.
#[derive(Clone, Copy, Debug)]
pub struct Health {
    pub health: i64,
    pub max: i64,
}

pub open spec fn wf_health(h: Health) -> bool {
    &&& -LIM <= h.health <= LIM
    &&& 0 <= h.max <= LIM
}

/// A damage payload: a flat amount applied once per qualifying collision.
#[derive(Clone, Copy, Debug)]
pub enum Damage {
    Basic(i64),
}

/// The flat amount a damage payload carries.
pub open spec fn damage_amount(d: Damage) -> int {
    match d {
        Damage::Basic(a) => a as int,
    }
}

pub open spec fn wf_damage(d: Damage) -> bool {
    0 <= damage_amount(d) <= LIM
}

impl Default for Damage {
    /// A damage payload of zero.
    fn default() -> (r: Damage)
        ensures
            damage_amount(r) == 0,
    {
        Damage::Basic(0)
    }
}

/// The impulse magnitude an entity imparts to whatever it collides with.
#[derive(Clone, Copy, Debug)]
pub struct Knockback {
    pub amount: i64,
}

pub open spec fn wf_knockback(k: Knockback) -> bool {
    0 <= k.amount <= LIM
}

/// A countdown: elapsed and total duration in milliseconds. The owner is
/// culled once `elapsed` reaches `duration`.
#[derive(Clone, Copy, Debug)]
pub struct Lifetime {
    pub elapsed: i64,
    pub duration: i64,
}

pub open spec fn wf_lifetime(l: Lifetime) -> bool {
    &&& 0 <= l.elapsed <= LIM
    &&& 0 <= l.duration <= LIM
}

pub open spec fn lifetime_finished(l: Lifetime) -> bool {
    l.elapsed >= l.duration
}

/// What an entity is, for the rules that single out the player, asteroids
/// (fragmentation) and bullets (death on any collision).
#[derive(Clone, Copy, Debug, PartialEq, Eq, Structural)]
pub enum Kind {
    Player,
    Asteroid,
    Bullet,
    Other,
}

/// One entity of the arena: a slot in the store. Despawned entities stay in
/// place with `alive` false; every component but the transform is optional.
#[derive(Clone, Copy, Debug)]
pub struct Entity {
    pub alive: bool,
    pub kind: Kind,
    pub transform: Transform,
    pub velocity: Option<Velocity>,
    pub drag: Option<Drag>,
    pub collision: Option<CollisionConfig>,
    pub affiliation: Option<Affiliation>,
    pub health: Option<Health>,
    pub damage: Option<Damage>,
    pub knockback: Option<Knockback>,
    pub lifetime: Option<Lifetime>,
    pub wrappable: bool,
}

pub open spec fn wf_entity(e: Entity) -> bool {
    &&& wf_transform(e.transform)
    &&& (e.velocity matches Some(v) ==> wf_velocity(v))
    &&& (e.drag matches Some(d) ==> wf_drag(d))
    &&& (e.collision matches Some(c) ==> wf_collision(c))
    &&& (e.health matches Some(h) ==> wf_health(h))
    &&& (e.damage matches Some(d) ==> wf_damage(d))
    &&& (e.knockback matches Some(k) ==> wf_knockback(k))
    &&& (e.lifetime matches Some(l) ==> wf_lifetime(l))
}

} // verus!

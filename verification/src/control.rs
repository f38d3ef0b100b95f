//! Input-driven control and entity spawning.
//!
//! The simulation does not poll devices: each tick it is handed abstract
//! boolean intents — thrust forward or back, rotate left or right, fire.
//! Thrust accelerates the player along its heading, rotation intents add
//! angular speed, and a fire intent spawns one projectile ahead of the
//! player. The player is a singleton; running the controller with any
//! other number of live players is a precondition violation, not a state
//! the simulation handles.

use vstd::prelude::*;
use crate::components::Affiliation;
use crate::components::CollisionConfig;
use crate::components::CollisionResolutionStrat;
use crate::components::Damage;
use crate::components::Drag;
use crate::components::Entity;
use crate::components::Health;
use crate::components::Kind;
use crate::components::Knockback;
use crate::components::Lifetime;
use crate::components::Transform;
use crate::components::Velocity;
use crate::components::wf_entity;
use crate::damage::make_fragment;
use crate::damage::asteroid_sized;
use crate::damage::fragment_shape;
use crate::fixed::MAX_DT;
use crate::fixed::SCALE;
use crate::fixed::add_clamped;
use crate::fixed::add_clamped_spec;
use crate::fixed::mul_div;
use crate::fixed::mul_div_spec;
use crate::rng::gen_range_i64;
use crate::trig::TAU_MILLI;
use crate::trig::cos_milli;
use crate::trig::cos_spec;
use crate::trig::sin_milli;
use crate::trig::sin_spec;
use crate::vec2::Vec2;
use crate::vec2::add_scaled;
use crate::vec2::add_scaled_spec;
use crate::world::World;
use crate::world::is_player;
use crate::world::lemma_no_player_zero;
use crate::world::lemma_player_count_push;
use crate::world::player_count;
use crate::world::wf_world;

verus! {

/// Thrust intents accelerate at this many pixels per second per second.
pub const THRUST_ACCEL: i64 = 1000;

/// A fired projectile leaves the player at this relative speed,
/// milli-pixels per second.
pub const PROJECTILE_SPEED: i64 = 500_000;

/// A projectile lives this many milliseconds.
pub const PROJECTILE_LIFETIME_MS: i64 = 1500;

/// The per-tick boolean input signals the simulation consumes.
#[derive(Clone, Copy, Debug)]
pub struct Intents {
    pub forward: bool,
    pub back: bool,
    pub left: bool,
    pub right: bool,
    pub fire: bool,
}

/// The unit vector the entity's nose points along: its local y axis
/// rotated by the heading, in milli-units.
pub open spec fn forward_of(heading: int) -> Vec2 {
    Vec2 { x: (0 - sin_spec(heading)) as i64, y: cos_spec(heading) as i64 }
}

/// The player's velocity after one tick of intents: thrust forward and
/// back along the heading, a full turn per second of angular speed for
/// each rotation intent, all saturating.
pub open spec fn steered_velocity(v: Velocity, heading: int, intents: Intents, dt: int) -> Velocity {
    let fwd = forward_of(heading);
    let t1 = if intents.forward {
        add_scaled_spec(v.translation_speed, fwd, THRUST_ACCEL * dt, SCALE as int)
    } else {
        v.translation_speed
    };
    let t2 = if intents.back {
        add_scaled_spec(t1, fwd, -(THRUST_ACCEL * dt), SCALE as int)
    } else {
        t1
    };
    let turn = mul_div_spec(TAU_MILLI as int, dt, SCALE as int);
    let r1 = if intents.left {
        add_clamped_spec(v.rotation_speed as int, turn)
    } else {
        v.rotation_speed as int
    };
    let r2 = if intents.right {
        add_clamped_spec(r1, -turn)
    } else {
        r1
    };
    Velocity { translation_speed: t2, rotation_speed: r2 as i64 }
}

/// The player entity after one tick of intents.
pub open spec fn steered_player(e: Entity, intents: Intents, dt: int) -> Entity {
    Entity {
        velocity: Some(steered_velocity(e.velocity->0, e.transform.heading as int, intents, dt)),
        ..e
    }
}

/// The projectile a fire intent spawns: the steered player's transform,
/// the player's velocity plus `PROJECTILE_SPEED` along the heading, a
/// pass-through collision circle, a flat damage payload, and a countdown.
pub open spec fn projectile_for(p: Entity) -> Entity {
    Entity {
        alive: true,
        kind: Kind::Bullet,
        transform: p.transform,
        velocity: Some(
            Velocity {
                translation_speed: add_scaled_spec(
                    p.velocity->0.translation_speed,
                    forward_of(p.transform.heading as int),
                    PROJECTILE_SPEED as int,
                    SCALE as int,
                ),
                rotation_speed: 0,
            },
        ),
        drag: None,
        collision: Some(
            CollisionConfig {
                radius: 13_000,
                collision_resolution: CollisionResolutionStrat::Prevent,
            },
        ),
        affiliation: Some(Affiliation::Friendly),
        health: None,
        damage: Some(Damage::Basic(5_000)),
        knockback: Some(Knockback { amount: 5_000 }),
        lifetime: Some(Lifetime { elapsed: 0, duration: PROJECTILE_LIFETIME_MS }),
        wrappable: true,
    }
}

/// The store after the controller ran on the player at `pi`.
pub open spec fn apply_controller(s: Seq<Entity>, pi: int, intents: Intents, dt: int) -> Seq<
    Entity,
> {
    let s1 = s.update(pi, steered_player(s[pi], intents, dt));
    if intents.fire {
        s1.push(projectile_for(steered_player(s[pi], intents, dt)))
    } else {
        s1
    }
}

/// What the controller did: it ran on the store's one live player.
pub open spec fn controller_rel(s: Seq<Entity>, s2: Seq<Entity>, intents: Intents, dt: int) -> bool {
    exists|pi: int|
        0 <= pi < s.len() && is_player(s[pi]) && s2 == #[trigger] apply_controller(
            s,
            pi,
            intents,
            dt,
        )
}

/// Apply one tick of input intents to the live player, spawning a
/// projectile on a fire intent.
#[verifier::loop_isolation(false)]
pub fn player_controller(w: &mut World, intents: Intents, dt: i64)
    requires
        wf_world(*old(w)),
        0 <= dt <= MAX_DT,
        player_count(old(w).entities@) == 1,
        forall|i: int|
            0 <= i < old(w).entities@.len() && is_player(#[trigger] old(w).entities@[i]) ==> old(
                w,
            ).entities@[i].velocity is Some,
    ensures
        wf_world(*final(w)),
        final(w).bounds == old(w).bounds,
        final(w).entities@.len() >= old(w).entities@.len(),
        controller_rel(old(w).entities@, final(w).entities@, intents, dt as int),
{
    let n = w.entities.len();
    let mut found: usize = n;
    let mut i: usize = 0;
    while i < n
        invariant
            0 <= i <= n,
            found <= n,
            found == n ==> forall|j: int| 0 <= j < i ==> !is_player(#[trigger] w.entities@[j]),
            found < n ==> is_player(w.entities@[found as int]),
        decreases n - i,
    {
        let e = w.entities[i];
        if found == n && e.alive && e.kind == Kind::Player {
            found = i;
        }
        i = i + 1;
    }
    if found == n {
        proof {
            lemma_no_player_zero(w.entities@);
        }
        assert(false);
    }
    let pi = found;
    let e = w.entities[pi];
    proof {
        assert(wf_entity(e));
    }
    let v = e.velocity.unwrap();
    let heading = e.transform.heading;
    let sn = sin_milli(heading);
    let cs = cos_milli(heading);
    let fwd = Vec2 { x: -sn, y: cs };
    proof {
        assert(fwd == forward_of(heading as int));
    }
    let t1 = if intents.forward {
        add_scaled(v.translation_speed, fwd, THRUST_ACCEL * dt, SCALE)
    } else {
        v.translation_speed
    };
    let t2 = if intents.back {
        add_scaled(t1, fwd, -(THRUST_ACCEL * dt), SCALE)
    } else {
        t1
    };
    let turn = mul_div(TAU_MILLI, dt, SCALE);
    let r1 = if intents.left {
        add_clamped(v.rotation_speed, turn)
    } else {
        v.rotation_speed
    };
    let r2 = if intents.right {
        add_clamped(r1, -turn)
    } else {
        r1
    };
    let new_v = Velocity { translation_speed: t2, rotation_speed: r2 };
    let mut e2 = e;
    e2.velocity = Some(new_v);
    w.entities[pi] = e2;
    proof {
        assert(e2 == steered_player(e, intents, dt as int));
    }
    if intents.fire {
        let bullet_v = add_scaled(new_v.translation_speed, fwd, PROJECTILE_SPEED, SCALE);
        let bullet = Entity {
            alive: true,
            kind: Kind::Bullet,
            transform: e2.transform,
            velocity: Some(Velocity { translation_speed: bullet_v, rotation_speed: 0 }),
            drag: None,
            collision: Some(
                CollisionConfig {
                    radius: 13_000,
                    collision_resolution: CollisionResolutionStrat::Prevent,
                },
            ),
            affiliation: Some(Affiliation::Friendly),
            health: None,
            damage: Some(Damage::Basic(5_000)),
            knockback: Some(Knockback { amount: 5_000 }),
            lifetime: Some(Lifetime { elapsed: 0, duration: PROJECTILE_LIFETIME_MS }),
            wrappable: true,
        };
        proof {
            assert(bullet == projectile_for(steered_player(e, intents, dt as int)));
        }
        w.entities.push(bullet);
    }
    proof {
        assert(final(w).entities@ == apply_controller(
            old(w).entities@,
            pi as int,
            intents,
            dt as int,
        ));
    }
}

/// The player as it first enters the arena: at the origin, at rest, with
/// one hundred hit points, a sixty-five pixel hull, heavy drag, contact
/// damage and a light knockback.
pub open spec fn player_entity() -> Entity {
    Entity {
        alive: true,
        kind: Kind::Player,
        transform: Transform { pos: Vec2 { x: 0, y: 0 }, heading: 0 },
        velocity: Some(Velocity { translation_speed: Vec2 { x: 0, y: 0 }, rotation_speed: 0 }),
        drag: Some(Drag { translational: 1500, rotational: 2000 }),
        collision: Some(
            CollisionConfig { radius: 65_000, collision_resolution: CollisionResolutionStrat::Yield },
        ),
        affiliation: Some(Affiliation::Friendly),
        health: Some(Health { health: 100_000, max: 100_000 }),
        damage: Some(Damage::Basic(50_000)),
        knockback: Some(Knockback { amount: 10_000 }),
        lifetime: None,
        wrappable: true,
    }
}

/// Spawn the player. There must be exactly one; the caller spawns it once
/// at startup.
pub fn spawn_player(w: &mut World) -> (id: usize)
    requires
        wf_world(*old(w)),
    ensures
        wf_world(*final(w)),
        final(w).bounds == old(w).bounds,
        final(w).entities@ == old(w).entities@.push(player_entity()),
        id == old(w).entities@.len(),
        player_count(final(w).entities@) == player_count(old(w).entities@) + 1,
{
    let e = Entity {
        alive: true,
        kind: Kind::Player,
        transform: Transform { pos: Vec2 { x: 0, y: 0 }, heading: 0 },
        velocity: Some(Velocity { translation_speed: Vec2 { x: 0, y: 0 }, rotation_speed: 0 }),
        drag: Some(Drag { translational: 1500, rotational: 2000 }),
        collision: Some(
            CollisionConfig { radius: 65_000, collision_resolution: CollisionResolutionStrat::Yield },
        ),
        affiliation: Some(Affiliation::Friendly),
        health: Some(Health { health: 100_000, max: 100_000 }),
        damage: Some(Damage::Basic(50_000)),
        knockback: Some(Knockback { amount: 10_000 }),
        lifetime: None,
        wrappable: true,
    };
    proof {
        assert(e == player_entity());
        lemma_player_count_push(old(w).entities@, e);
    }
    w.spawn(e)
}

/// An asteroid as initial placement spawns it: between ten and a hundred
/// pixels across, inside the middle of the arena, drifting with a drawn
/// velocity. Its components are exactly a fragment's of its own size.
pub open spec fn is_initial_asteroid(e: Entity) -> bool {
    exists|pos: Vec2, size: int|
        10_000 <= size < 100_000 && -500_000 <= pos.x < 500_000 && -500_000 <= pos.y < 500_000
            && #[trigger] fragment_shape(e, pos, size, size)
}

/// Spawn the four drifting asteroids of a fresh arena, each of a drawn
/// size at a drawn position.
#[verifier::loop_isolation(false)]
pub fn spawn_asteroids(w: &mut World, rng: &mut rand::rngs::ThreadRng)
    requires
        wf_world(*old(w)),
    ensures
        wf_world(*final(w)),
        final(w).bounds == old(w).bounds,
        final(w).entities@.len() == old(w).entities@.len() + 4,
        forall|i: int|
            0 <= i < old(w).entities@.len() ==> final(w).entities@[i] == old(w).entities@[i],
        forall|i: int|
            old(w).entities@.len() <= i < final(w).entities@.len() ==> is_initial_asteroid(
                #[trigger] final(w).entities@[i],
            ) && wf_entity(final(w).entities@[i]) && asteroid_sized(final(w).entities@[i])
                && !is_player(final(w).entities@[i]),
        player_count(final(w).entities@) == player_count(old(w).entities@),
{
    let mut c: usize = 0;
    while c < 4
        invariant
            0 <= c <= 4,
            w.bounds == old(w).bounds,
            wf_world(*w),
            w.entities@.len() == old(w).entities@.len() + c,
            forall|i: int|
                0 <= i < old(w).entities@.len() ==> w.entities@[i] == old(w).entities@[i],
            forall|i: int|
                old(w).entities@.len() <= i < w.entities@.len() ==> is_initial_asteroid(
                    #[trigger] w.entities@[i],
                ) && wf_entity(w.entities@[i]) && asteroid_sized(w.entities@[i]) && !is_player(
                    w.entities@[i],
                ),
            player_count(w.entities@) == player_count(old(w).entities@),
        decreases 4 - c,
    {
        let size = gen_range_i64(rng, 10_000, 100_000);
        let px = gen_range_i64(rng, -500_000, 500_000);
        let py = gen_range_i64(rng, -500_000, 500_000);
        let pos = Vec2 { x: px, y: py };
        let e = make_fragment(pos, size, size, rng);
        proof {
            assert(is_initial_asteroid(e)) by {
                assert(10_000 <= size < 100_000 && -500_000 <= pos.x < 500_000 && -500_000 <= pos.y
                    < 500_000 && fragment_shape(e, pos, size as int, size as int));
            }
            lemma_player_count_push(w.entities@, e);
        }
        w.spawn(e);
        c = c + 1;
    }
}

} // verus!

//! Damage, despawning, fragmentation and knockback.
//!
//! The tick's collision events are consumed read-only by two independent
//! passes over the same batch: one for asteroids, one for the player. For
//! each event side whose entity still matches (alive, right kind, carrying
//! health and velocity), the opposing side's damage is subtracted; a drop
//! to zero or below despawns the entity at once, so a later event naming it
//! is a no-op. Destroyed asteroids fragment: the spawn requests are
//! collected during the pass and appended only after it completes. The
//! opposing side's knockback is always added to the entity's translational
//! velocity along the event's separation direction — backward for the
//! event's first side, forward for the second.

use vstd::prelude::*;
use crate::collision::CollisionEvent;
use crate::components::Affiliation;
use crate::components::CollisionConfig;
use crate::components::CollisionResolutionStrat;
use crate::components::Damage;
use crate::components::Entity;
use crate::components::Health;
use crate::components::Kind;
use crate::components::Knockback;
use crate::components::Transform;
use crate::components::Velocity;
use crate::components::damage_amount;
use crate::components::wf_damage;
use crate::components::wf_entity;
use crate::fixed::LIM;
use crate::fixed::SCALE;
use crate::fixed::add_clamped;
use crate::fixed::add_clamped_spec;
use crate::fixed::clamp;
use crate::fixed::mul_div;
use crate::fixed::mul_div_spec;
use crate::rng::gen_range_i64;
use crate::trig::TAU_MILLI;
use crate::trig::cos_milli;
use crate::trig::cos_spec;
use crate::trig::sin_milli;
use crate::trig::sin_spec;
use crate::vec2::Vec2;
use crate::vec2::add_scaled;
use crate::vec2::add_scaled_spec;
use crate::vec2::wf_vec2;
use crate::world::World;
use crate::world::wf_world;

verus! {

/// Sizes are twice the maximum health; a size gains one potential fragment
/// per ten pixels, up to five.
pub const FRAG_SIZE_STEP: i64 = 10_000;

/// The cap on potential fragment divisions.
pub const FRAG_DIVISIONS_CAP: i64 = 5;

/// Numerator of a fragment's speed bound: speed is drawn below
/// `3000 / size-in-pixels` pixels per second, which in milli-units is this
/// constant over the milli-unit size.
pub const FRAG_SPEED_NUM: i64 = 3_000_000_000;

/// Numerator of a fragment's rotation-speed bound, milli-radians per
/// second over the milli-unit size.
pub const FRAG_ROT_NUM: i64 = 100_000_000;

/// An event is well formed when its payloads are: damage amounts and
/// knockback magnitudes inside the scalar range.
pub open spec fn wf_event(ev: CollisionEvent) -> bool {
    &&& (ev.damage_a matches Some(d) ==> wf_damage(d))
    &&& (ev.damage_b matches Some(d) ==> wf_damage(d))
    &&& 0 <= ev.knockback_a <= LIM
    &&& 0 <= ev.knockback_b <= LIM
}

/// The asteroid damage pass matches a live asteroid carrying health and
/// velocity.
pub open spec fn matches_asteroid_query(e: Entity) -> bool {
    e.alive && e.kind == Kind::Asteroid && e.health is Some && e.velocity is Some
}

/// The player damage pass matches the live player carrying health and
/// velocity.
pub open spec fn matches_player_query(e: Entity) -> bool {
    e.alive && e.kind == Kind::Player && e.health is Some && e.velocity is Some
}

/// Every live asteroid with health is at least ten pixels across (maximum
/// health at least five pixels). Spawning keeps this invariant, and
/// fragmentation relies on it: the division draw needs a nonempty range.
pub open spec fn asteroid_sized(e: Entity) -> bool {
    (e.alive && e.kind == Kind::Asteroid && e.health is Some) ==> e.health->0.max
        >= FRAG_SIZE_STEP / 2
}

/// One event side applied to the entity standing there: subtract the
/// opposing damage (saturating) and despawn on a drop to zero or below;
/// then add the opposing knockback to the translational velocity along
/// `dir` — `sign` is -1 for the event's first side, +1 for the second —
/// whether or not the entity just died.
pub open spec fn hit_entity(e: Entity, opp: Option<Damage>, dir: Vec2, kb: i64, sign: int) -> Entity {
    let damaged = match opp {
        Some(d) => {
            let nh = add_clamped_spec(e.health->0.health as int, -damage_amount(d));
            Entity {
                health: Some(Health { health: nh as i64, ..e.health->0 }),
                alive: nh > 0,
                ..e
            }
        },
        None => e,
    };
    let v = damaged.velocity->0;
    Entity {
        velocity: Some(
            Velocity {
                translation_speed: add_scaled_spec(
                    v.translation_speed,
                    dir,
                    sign * kb,
                    SCALE as int,
                ),
                ..v
            },
        ),
        ..damaged
    }
}

/// The store index an event names on the given side.
pub open spec fn event_index(ev: CollisionEvent, side: int) -> int {
    if side == 0 {
        ev.a as int
    } else {
        ev.b as int
    }
}

/// The damage payload facing the given side: the other side's.
pub open spec fn event_damage_toward(ev: CollisionEvent, side: int) -> Option<Damage> {
    if side == 0 {
        ev.damage_b
    } else {
        ev.damage_a
    }
}

/// The knockback magnitude facing the given side: the other side's.
pub open spec fn event_kb_toward(ev: CollisionEvent, side: int) -> i64 {
    if side == 0 {
        ev.knockback_b
    } else {
        ev.knockback_a
    }
}

/// Knockback pushes the first side backward along the direction, the
/// second forward.
pub open spec fn side_sign(side: int) -> int {
    if side == 0 {
        -1
    } else {
        1
    }
}

/// One event side of the asteroid pass.
pub open spec fn asteroid_side_step(s: Seq<Entity>, ev: CollisionEvent, side: int) -> Seq<Entity> {
    let idx = event_index(ev, side);
    if 0 <= idx < s.len() && matches_asteroid_query(s[idx]) {
        s.update(
            idx,
            hit_entity(
                s[idx],
                event_damage_toward(ev, side),
                ev.direction,
                event_kb_toward(ev, side),
                side_sign(side),
            ),
        )
    } else {
        s
    }
}

/// The deterministic part of the asteroid pass: every event, both sides in
/// order. Fragment spawns are appended after the fold.
pub open spec fn asteroid_damage_fold(s: Seq<Entity>, evs: Seq<CollisionEvent>, k: int) -> Seq<
    Entity,
>
    decreases evs.len() - k,
{
    if !(0 <= k < evs.len()) {
        s
    } else {
        asteroid_damage_fold(
            asteroid_side_step(asteroid_side_step(s, evs[k], 0), evs[k], 1),
            evs,
            k + 1,
        )
    }
}

/// One event of the player pass. The player is a singleton, so once one
/// side has matched it the other side is not examined.
pub open spec fn player_event_step(s: Seq<Entity>, ev: CollisionEvent) -> Seq<Entity> {
    let i0 = event_index(ev, 0);
    let i1 = event_index(ev, 1);
    if 0 <= i0 < s.len() && matches_player_query(s[i0]) {
        s.update(i0, hit_entity(s[i0], ev.damage_b, ev.direction, ev.knockback_b, -1))
    } else if 0 <= i1 < s.len() && matches_player_query(s[i1]) {
        s.update(i1, hit_entity(s[i1], ev.damage_a, ev.direction, ev.knockback_a, 1))
    } else {
        s
    }
}

/// The whole player pass over the event batch.
pub open spec fn player_damage_fold(s: Seq<Entity>, evs: Seq<CollisionEvent>, k: int) -> Seq<Entity>
    decreases evs.len() - k,
{
    if !(0 <= k < evs.len()) {
        s
    } else {
        player_damage_fold(player_event_step(s, evs[k]), evs, k + 1)
    }
}

/// The potential divisions of a destroyed asteroid of the given size: one
/// per ten pixels, capped at five.
pub open spec fn max_divisions_spec(size: int) -> int {
    if size / (FRAG_SIZE_STEP as int) < FRAG_DIVISIONS_CAP {
        size / (FRAG_SIZE_STEP as int)
    } else {
        FRAG_DIVISIONS_CAP as int
    }
}

/// A fragment's size: the parent's size over the division count, but never
/// over fewer than two.
pub open spec fn new_size_spec(size: int, divisions: int) -> int {
    size / (if divisions >= 2 {
        divisions
    } else {
        2
    })
}

/// A fragment's velocity: a drawn speed below `FRAG_SPEED_NUM / ns` along
/// a drawn direction, and a rotation speed bounded by `FRAG_ROT_NUM / ns`.
pub open spec fn fragment_velocity_shape(v: Velocity, ns: int) -> bool {
    &&& exists|theta: int, sp: int|
        0 <= theta < TAU_MILLI && 0 <= sp < (FRAG_SPEED_NUM as int) / ns && v.translation_speed.x
            == mul_div_spec(cos_spec(theta), sp, SCALE as int) && v.translation_speed.y
            == mul_div_spec(sin_spec(theta), sp, SCALE as int)
    &&& -((FRAG_ROT_NUM as int) / ns) <= v.rotation_speed <= (FRAG_ROT_NUM as int) / ns
}

/// A fragment of size `ns` spawned at `pos` by a destroyed parent of size
/// `size`: every deterministic field pinned, the drawn velocity bounded.
pub open spec fn fragment_shape(e: Entity, pos: Vec2, size: int, ns: int) -> bool {
    &&& e.alive
    &&& e.kind == Kind::Asteroid
    &&& e.transform.pos == pos
    &&& e.transform.heading == 0
    &&& e.collision == Some(
        CollisionConfig {
            radius: (ns / 2) as i64,
            collision_resolution: CollisionResolutionStrat::Yield,
        },
    )
    &&& e.health == Some(Health { health: (ns / 2) as i64, max: (ns / 2) as i64 })
    &&& e.damage == Some(Damage::Basic((ns / 3) as i64))
    &&& e.knockback == Some(Knockback { amount: clamp(2 * size) as i64 })
    &&& e.affiliation == Some(Affiliation::Neutral)
    &&& e.wrappable
    &&& e.drag is None
    &&& e.lifetime is None
    &&& (e.velocity matches Some(v) && fragment_velocity_shape(v, ns))
}

/// An entity that some destroyed asteroid could have spawned.
pub open spec fn is_fragment(e: Entity) -> bool {
    exists|pos: Vec2, size: int, ns: int|
        (FRAG_SIZE_STEP as int) <= ns && #[trigger] fragment_shape(e, pos, size, ns)
}

/// Whenever a destroyed asteroid spawns at least one child, the child's
/// size is at least the ten-pixel quantum and at most half the parent's.
pub proof fn lemma_fragment_size(size: int, divisions: int)
    requires
        FRAG_SIZE_STEP as int <= size,
        1 <= divisions < max_divisions_spec(size),
    ensures
        FRAG_SIZE_STEP as int <= new_size_spec(size, divisions),
        2 * new_size_spec(size, divisions) <= size,
{
    let d = if divisions >= 2 {
        divisions
    } else {
        2int
    };
    assert(divisions + 1 <= size / (FRAG_SIZE_STEP as int));
    assert((d + 1) * (FRAG_SIZE_STEP as int) <= size || d == 2) by (nonlinear_arith)
        requires
            divisions + 1 <= size / (FRAG_SIZE_STEP as int),
            d == (if divisions >= 2 {
                divisions
            } else {
                2int
            }),
            1 <= divisions,
            FRAG_SIZE_STEP == 10_000,
            size >= 10_000,
    ;
    if d == 2 {
        assert(2 * (FRAG_SIZE_STEP as int) <= size) by (nonlinear_arith)
            requires
                divisions + 1 <= size / (FRAG_SIZE_STEP as int),
                divisions >= 1,
                FRAG_SIZE_STEP == 10_000,
                size >= 10_000,
        ;
        assert(FRAG_SIZE_STEP as int <= size / 2) by (nonlinear_arith)
            requires
                2 * (FRAG_SIZE_STEP as int) <= size,
                FRAG_SIZE_STEP == 10_000,
        ;
        assert(2 * (size / 2) <= size) by (nonlinear_arith)
            requires
                size >= 0,
        ;
    } else {
        assert(FRAG_SIZE_STEP as int <= size / d && 2 * (size / d) <= size) by (nonlinear_arith)
            requires
                (d + 1) * (FRAG_SIZE_STEP as int) <= size,
                3 <= d <= 5,
                FRAG_SIZE_STEP == 10_000,
        ;
    }
}

/// Build one fragment: deterministic fields from the parent, velocity from
/// fresh draws.
pub(crate) fn make_fragment(pos: Vec2, size: i64, ns: i64, rng: &mut rand::rngs::ThreadRng) -> (e: Entity)
    requires
        wf_vec2(pos),
        FRAG_SIZE_STEP <= ns <= LIM,
        0 <= size <= 2 * (LIM as int),
    ensures
        fragment_shape(e, pos, size as int, ns as int),
        wf_entity(e),
        asteroid_sized(e),
        is_fragment(e),
{
    let theta = gen_range_i64(rng, 0, TAU_MILLI);
    let speed_hi = FRAG_SPEED_NUM / ns;
    proof {
        vstd::arithmetic::div_mod::lemma_div_is_ordered_by_denominator(
            FRAG_SPEED_NUM as int,
            ns as int,
            LIM as int,
        );
        assert(speed_hi >= (FRAG_SPEED_NUM as int) / (LIM as int));
    }
    let sp = gen_range_i64(rng, 0, speed_hi);
    let c = cos_milli(theta);
    let s = sin_milli(theta);
    let vx = mul_div(c, sp, SCALE);
    let vy = mul_div(s, sp, SCALE);
    let rot_hi = FRAG_ROT_NUM / ns;
    let rot = if rot_hi >= 1 {
        gen_range_i64(rng, -rot_hi, rot_hi)
    } else {
        0
    };
    let velocity = Velocity { translation_speed: Vec2 { x: vx, y: vy }, rotation_speed: rot };
    proof {
        assert(fragment_velocity_shape(velocity, ns as int)) by {
            assert(0 <= theta < TAU_MILLI && 0 <= sp < (FRAG_SPEED_NUM as int) / (ns as int)
                && velocity.translation_speed.x == mul_div_spec(
                cos_spec(theta as int),
                sp as int,
                SCALE as int,
            ) && velocity.translation_speed.y == mul_div_spec(
                sin_spec(theta as int),
                sp as int,
                SCALE as int,
            ));
        }
    }
    let e = Entity {
        alive: true,
        kind: Kind::Asteroid,
        transform: Transform { pos, heading: 0 },
        velocity: Some(velocity),
        drag: None,
        collision: Some(
            CollisionConfig {
                radius: ns / 2,
                collision_resolution: CollisionResolutionStrat::Yield,
            },
        ),
        affiliation: Some(Affiliation::Neutral),
        health: Some(Health { health: ns / 2, max: ns / 2 }),
        damage: Some(Damage::Basic(ns / 3)),
        knockback: Some(Knockback { amount: add_clamped(size, size) }),
        lifetime: None,
        wrappable: true,
    };
    proof {
        assert(fragment_shape(e, pos, size as int, ns as int));
        assert(is_fragment(e)) by {
            assert((FRAG_SIZE_STEP as int) <= ns as int && fragment_shape(
                e,
                pos,
                size as int,
                ns as int,
            ));
        }
    }
    e
}

/// Fragment a destroyed asteroid of the given maximum health at its last
/// position: draw a division count uniformly from `[0, min(size/10, 5))`
/// (size in pixels, twice the maximum health) and push exactly that many
/// children onto `pending`, each of size `size / max(divisions, 2)`, with
/// health and radius half that size, damage a third of it, a knockback
/// scaled to the parent's size, and an independently drawn velocity.
/// Drawing zero divisions is normal: the asteroid vanishes without
/// fragments. The combined mass of the children — `divisions` times the
/// fragment size — approximates the parent's size but need not equal it:
/// conservation is an approximation here, not a rule.
#[verifier::loop_isolation(false)]
pub fn fragment_asteroid(
    pending: &mut Vec<Entity>,
    pos: Vec2,
    max_health: i64,
    rng: &mut rand::rngs::ThreadRng,
) -> (divisions: i64)
    requires
        wf_vec2(pos),
        FRAG_SIZE_STEP / 2 <= max_health <= LIM,
    ensures
        0 <= divisions < max_divisions_spec(2 * max_health),
        final(pending)@.len() == old(pending)@.len() + divisions,
        forall|p: int|
            0 <= p < old(pending)@.len() ==> final(pending)@[p] == old(pending)@[p],
        forall|p: int|
            old(pending)@.len() <= p < final(pending)@.len() ==> fragment_shape(
                #[trigger] final(pending)@[p],
                pos,
                2 * max_health,
                new_size_spec(2 * max_health, divisions as int),
            ) && wf_entity(final(pending)@[p]) && asteroid_sized(final(pending)@[p]) && is_fragment(
                final(pending)@[p],
            ),
{
    let size: i64 = 2 * max_health;
    let raw: i64 = size / FRAG_SIZE_STEP;
    proof {
        vstd::arithmetic::div_mod::lemma_div_is_ordered(
            FRAG_SIZE_STEP as int,
            size as int,
            FRAG_SIZE_STEP as int,
        );
        assert((FRAG_SIZE_STEP as int) / (FRAG_SIZE_STEP as int) == 1) by (nonlinear_arith)
            requires
                FRAG_SIZE_STEP == 10_000,
        ;
    }
    let maxd: i64 = if raw < FRAG_DIVISIONS_CAP {
        raw
    } else {
        FRAG_DIVISIONS_CAP
    };
    let divisions = gen_range_i64(rng, 0, maxd);
    let ns: i64 = size / (if divisions >= 2 {
        divisions
    } else {
        2
    });
    proof {
        if divisions >= 1 {
            lemma_fragment_size(size as int, divisions as int);
        }
    }
    let mut d: i64 = 0;
    while d < divisions
        invariant
            0 <= d <= divisions,
            pending@.len() == old(pending)@.len() + d,
            forall|p: int| 0 <= p < old(pending)@.len() ==> pending@[p] == old(pending)@[p],
            forall|p: int|
                old(pending)@.len() <= p < pending@.len() ==> fragment_shape(
                    #[trigger] pending@[p],
                    pos,
                    2 * max_health,
                    new_size_spec(2 * max_health, divisions as int),
                ) && wf_entity(pending@[p]) && asteroid_sized(pending@[p]) && is_fragment(
                    pending@[p],
                ),
        decreases divisions - d,
    {
        let e = make_fragment(pos, size, ns, rng);
        pending.push(e);
        d = d + 1;
    }
    divisions
}

/// One event side of the asteroid pass: apply damage and knockback to a
/// matching asteroid, despawn it on a drop to zero or below, and collect
/// its fragments into `pending`.
fn asteroid_side(
    w: &mut World,
    ev: &CollisionEvent,
    side0: bool,
    pending: &mut Vec<Entity>,
    rng: &mut rand::rngs::ThreadRng,
)
    requires
        wf_world(*old(w)),
        wf_event(*ev),
        forall|i: int|
            0 <= i < old(w).entities@.len() ==> asteroid_sized(#[trigger] old(w).entities@[i]),
    ensures
        wf_world(*final(w)),
        final(w).bounds == old(w).bounds,
        final(w).entities@ == asteroid_side_step(
            old(w).entities@,
            *ev,
            if side0 {
                0int
            } else {
                1int
            },
        ),
        forall|i: int|
            0 <= i < final(w).entities@.len() ==> asteroid_sized(#[trigger] final(w).entities@[i]),
        final(pending)@.len() >= old(pending)@.len(),
        forall|p: int| 0 <= p < old(pending)@.len() ==> final(pending)@[p] == old(pending)@[p],
        forall|p: int|
            old(pending)@.len() <= p < final(pending)@.len() ==> is_fragment(
                #[trigger] final(pending)@[p],
            ) && wf_entity(final(pending)@[p]) && asteroid_sized(final(pending)@[p]),
{
    let ghost side: int = if side0 {
        0int
    } else {
        1int
    };
    let idx: usize = if side0 {
        ev.a
    } else {
        ev.b
    };
    if !(idx < w.entities.len()) {
        return ;
    }
    let e = w.entities[idx];
    proof {
        assert(wf_entity(e));
        assert(asteroid_sized(e));
    }
    if !(e.alive && e.kind == Kind::Asteroid && e.health.is_some() && e.velocity.is_some()) {
        return ;
    }
    let opp: Option<Damage> = if side0 {
        ev.damage_b
    } else {
        ev.damage_a
    };
    let kb: i64 = if side0 {
        ev.knockback_b
    } else {
        ev.knockback_a
    };
    let h = e.health.unwrap();
    let mut e2 = e;
    let mut died = false;
    if let Some(Damage::Basic(amt)) = opp {
        let nh = add_clamped(h.health, -amt);
        e2.health = Some(Health { health: nh, max: h.max });
        e2.alive = nh > 0;
        died = nh <= 0;
    }
    let v = e2.velocity.unwrap();
    let kk: i64 = if side0 {
        -kb
    } else {
        kb
    };
    e2.velocity = Some(
        Velocity {
            translation_speed: add_scaled(v.translation_speed, ev.direction, kk, SCALE),
            rotation_speed: v.rotation_speed,
        },
    );
    w.entities[idx] = e2;
    proof {
        assert(e2 == hit_entity(e, opp, ev.direction, event_kb_toward(*ev, side), side_sign(side)));
        assert(w.entities@ == asteroid_side_step(old(w).entities@, *ev, side));
    }
    if died {
        fragment_asteroid(pending, e.transform.pos, h.max, rng);
    }
}

/// The asteroid damage-and-fragmentation pass: consume every event of the
/// tick, both sides in order; subtract opposing damage from each matched
/// asteroid, despawn at zero or below and collect that asteroid's
/// fragments, apply opposing knockback; then append all collected
/// fragments to the store.
#[verifier::loop_isolation(false)]
pub fn break_asteroids(
    w: &mut World,
    events: &Vec<CollisionEvent>,
    rng: &mut rand::rngs::ThreadRng,
)
    requires
        wf_world(*old(w)),
        forall|k: int| 0 <= k < events@.len() ==> wf_event(#[trigger] events@[k]),
        forall|i: int|
            0 <= i < old(w).entities@.len() ==> asteroid_sized(#[trigger] old(w).entities@[i]),
    ensures
        wf_world(*final(w)),
        final(w).bounds == old(w).bounds,
        final(w).entities@.len() >= old(w).entities@.len(),
        final(w).entities@.subrange(0, old(w).entities@.len() as int) == asteroid_damage_fold(
            old(w).entities@,
            events@,
            0,
        ),
        forall|m: int|
            old(w).entities@.len() <= m < final(w).entities@.len() ==> is_fragment(
                #[trigger] final(w).entities@[m],
            ),
        forall|i: int|
            0 <= i < final(w).entities@.len() ==> asteroid_sized(#[trigger] final(w).entities@[i]),
{
    let m = events.len();
    let mut pending: Vec<Entity> = Vec::new();
    let mut k: usize = 0;
    while k < m
        invariant
            0 <= k <= m,
            w.entities@.len() == old(w).entities@.len(),
            w.bounds == old(w).bounds,
            wf_world(*w),
            forall|i: int|
                0 <= i < w.entities@.len() ==> asteroid_sized(#[trigger] w.entities@[i]),
            asteroid_damage_fold(old(w).entities@, events@, 0) == asteroid_damage_fold(
                w.entities@,
                events@,
                k as int,
            ),
            forall|p: int|
                0 <= p < pending@.len() ==> is_fragment(#[trigger] pending@[p]) && wf_entity(
                    pending@[p],
                ) && asteroid_sized(pending@[p]),
        decreases m - k,
    {
        let ev = events[k];
        asteroid_side(w, &ev, true, &mut pending, rng);
        asteroid_side(w, &ev, false, &mut pending, rng);
        k = k + 1;
    }
    let ghost folded = w.entities@;
    w.entities.append(&mut pending);
    proof {
        assert(w.entities@.subrange(0, folded.len() as int) =~= folded);
    }
}

/// The player damage pass: for each event, find the side the live player
/// stands on — at most one, the player being a singleton — subtract the
/// opposing damage, despawn at zero or below, and apply the opposing
/// knockback. The other side of that event is then not examined.
#[verifier::loop_isolation(false)]
pub fn hurt_player(w: &mut World, events: &Vec<CollisionEvent>)
    requires
        wf_world(*old(w)),
        forall|k: int| 0 <= k < events@.len() ==> wf_event(#[trigger] events@[k]),
    ensures
        wf_world(*final(w)),
        final(w).bounds == old(w).bounds,
        final(w).entities@ == player_damage_fold(old(w).entities@, events@, 0),
{
    let m = events.len();
    let mut k: usize = 0;
    while k < m
        invariant
            0 <= k <= m,
            w.entities@.len() == old(w).entities@.len(),
            w.bounds == old(w).bounds,
            wf_world(*w),
            player_damage_fold(old(w).entities@, events@, 0) == player_damage_fold(
                w.entities@,
                events@,
                k as int,
            ),
        decreases m - k,
    {
        let ev = events[k];
        player_side(w, &ev);
        k = k + 1;
    }
}

/// One event of the player pass: apply it to whichever side the live
/// player stands on, if either.
fn player_side(w: &mut World, ev: &CollisionEvent)
    requires
        wf_world(*old(w)),
        wf_event(*ev),
    ensures
        wf_world(*final(w)),
        final(w).bounds == old(w).bounds,
        final(w).entities@ == player_event_step(old(w).entities@, *ev),
{
    let idx0 = ev.a;
    let matched0 = if idx0 < w.entities.len() {
        let e = w.entities[idx0];
        e.alive && e.kind == Kind::Player && e.health.is_some() && e.velocity.is_some()
    } else {
        false
    };
    if matched0 {
        player_hit_at(w, idx0, ev.damage_b, ev.direction, ev.knockback_b, true);
        return ;
    }
    let idx1 = ev.b;
    let matched1 = if idx1 < w.entities.len() {
        let e = w.entities[idx1];
        e.alive && e.kind == Kind::Player && e.health.is_some() && e.velocity.is_some()
    } else {
        false
    };
    if matched1 {
        player_hit_at(w, idx1, ev.damage_a, ev.direction, ev.knockback_a, false);
    }
}

/// Apply one matched event side to the player at `idx`.
fn player_hit_at(w: &mut World, idx: usize, opp: Option<Damage>, dir: Vec2, kb: i64, first: bool)
    requires
        wf_world(*old(w)),
        idx < old(w).entities@.len(),
        matches_player_query(old(w).entities@[idx as int]),
        opp matches Some(d) ==> wf_damage(d),
        0 <= kb <= LIM,
    ensures
        wf_world(*final(w)),
        final(w).bounds == old(w).bounds,
        final(w).entities@ == old(w).entities@.update(
            idx as int,
            hit_entity(
                old(w).entities@[idx as int],
                opp,
                dir,
                kb,
                if first {
                    -1int
                } else {
                    1int
                },
            ),
        ),
{
    let e = w.entities[idx];
    proof {
        assert(wf_entity(e));
    }
    let h = e.health.unwrap();
    let mut e2 = e;
    if let Some(Damage::Basic(amt)) = opp {
        let nh = add_clamped(h.health, -amt);
        e2.health = Some(Health { health: nh, max: h.max });
        e2.alive = nh > 0;
    }
    let v = e2.velocity.unwrap();
    let kk: i64 = if first {
        -kb
    } else {
        kb
    };
    e2.velocity = Some(
        Velocity {
            translation_speed: add_scaled(v.translation_speed, dir, kk, SCALE),
            rotation_speed: v.rotation_speed,
        },
    );
    w.entities[idx] = e2;
}

} // verus!

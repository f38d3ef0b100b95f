//! Pairwise collision detection and penetration resolution.
//!
//! Every unordered pair of live entities carrying a collision shape is
//! examined at most once per tick, in index order. A pair both of whose
//! sides carry the same non-hostile affiliation is skipped (no friendly
//! fire, no asteroid-on-asteroid grinding); hostile entities collide even
//! with each other. Two circles overlap when the squared distance between
//! their centers is below the square of the sum of their radii. An overlap
//! emits one event and, unless either side's policy is `Prevent`, is
//! resolved immediately within the same pass, so pair order matters when
//! three or more entities overlap at once — a single-pass approximation,
//! not an iterative solver.

use vstd::prelude::*;
use crate::components::Affiliation;
use crate::components::CollisionResolutionStrat;
use crate::components::Damage;
use crate::components::Entity;
use crate::components::Transform;
use crate::components::wf_entity;
use crate::fixed::LIM;
use crate::fixed::SCALE;
use crate::fixed::add_clamped;
use crate::fixed::add_clamped_spec;
use crate::fixed::mul_div;
use crate::fixed::mul_div_spec;
use crate::vec2::Vec2;
use crate::vec2::dir_spec;
use crate::vec2::dist;
use crate::vec2::dist_sq;
use crate::vec2::dist_sq_spec;
use crate::vec2::dist_spec;
use crate::vec2::unit_toward;
use crate::world::World;
use crate::world::wf_world;

verus! {

/// One overlapping pair, recorded for the damage, knockback and culling
/// passes of the same tick. Index `a` is the lower store index; the
/// direction points from `a` toward `b`; each side's damage payload is a
/// copy, since the source entity may despawn before the event is consumed.
#[derive(Clone, Copy, Debug)]
pub struct CollisionEvent {
    pub a: usize,
    pub b: usize,
    pub damage_a: Option<Damage>,
    pub damage_b: Option<Damage>,
    pub direction: Vec2,
    pub knockback_a: i64,
    pub knockback_b: i64,
}

/// A live entity that takes part in collision detection.
pub open spec fn collidable(e: Entity) -> bool {
    e.alive && e.collision is Some
}

/// The pair is exempt from collision: both sides carry the same
/// affiliation and that affiliation is not hostile. Hostile entities are
/// always checked, even against each other.
pub open spec fn affiliation_blocks(e1: Entity, e2: Entity) -> bool {
    &&& e1.affiliation is Some
    &&& e2.affiliation is Some
    &&& e1.affiliation->0 == e2.affiliation->0
    &&& e1.affiliation->0 != Affiliation::Hostile
}

/// The circle overlap test: squared center distance strictly below the
/// squared radius sum.
pub open spec fn pair_overlaps(e1: Entity, e2: Entity) -> bool {
    dist_sq_spec(e1.transform.pos, e2.transform.pos) < (e1.collision->0.radius
        + e2.collision->0.radius) * (e1.collision->0.radius + e2.collision->0.radius)
}

/// The full per-pair collision condition.
pub open spec fn pair_collides(e1: Entity, e2: Entity) -> bool {
    &&& collidable(e1)
    &&& collidable(e2)
    &&& !affiliation_blocks(e1, e2)
    &&& pair_overlaps(e1, e2)
}

/// The knockback magnitude an entity imparts; zero when it carries none.
pub open spec fn knockback_of(e: Entity) -> i64 {
    if e.knockback is Some {
        e.knockback->0.amount
    } else {
        0
    }
}

/// The event emitted for a colliding pair at indices `i < j`.
pub open spec fn event_for(i: usize, j: usize, e1: Entity, e2: Entity) -> CollisionEvent {
    CollisionEvent {
        a: i,
        b: j,
        damage_a: e1.damage,
        damage_b: e2.damage,
        direction: dir_spec(e1.transform.pos, e2.transform.pos),
        knockback_a: knockback_of(e1),
        knockback_b: knockback_of(e2),
    }
}

/// A transform displaced by `(dx, dy)`, saturated.
pub open spec fn nudged(t: Transform, dx: int, dy: int) -> Transform {
    Transform {
        pos: Vec2 {
            x: add_clamped_spec(t.pos.x as int, dx) as i64,
            y: add_clamped_spec(t.pos.y as int, dy) as i64,
        },
        ..t
    }
}

/// The two sides of a colliding pair after immediate penetration
/// resolution. `Prevent` on either side vetoes resolution for the pair;
/// otherwise a yielding side absorbs displacement along the separation
/// axis, split evenly when both yield.
pub open spec fn resolved_pair(e1: Entity, e2: Entity) -> (Entity, Entity) {
    let r1 = e1.collision->0.collision_resolution;
    let r2 = e2.collision->0.collision_resolution;
    if r1 == CollisionResolutionStrat::Prevent || r2 == CollisionResolutionStrat::Prevent {
        (e1, e2)
    } else {
        let pen = (e1.collision->0.radius + e2.collision->0.radius) - dist_spec(
            e1.transform.pos,
            e2.transform.pos,
        );
        let dir = dir_spec(e1.transform.pos, e2.transform.pos);
        let dx = mul_div_spec(pen, dir.x as int, SCALE as int);
        let dy = mul_div_spec(pen, dir.y as int, SCALE as int);
        let both = r1 == CollisionResolutionStrat::Yield && r2 == CollisionResolutionStrat::Yield;
        let ddx = if both {
            mul_div_spec(dx, 1, 2)
        } else {
            dx
        };
        let ddy = if both {
            mul_div_spec(dy, 1, 2)
        } else {
            dy
        };
        let f1 = if r1 == CollisionResolutionStrat::Yield {
            Entity { transform: nudged(e1.transform, -ddx, -ddy), ..e1 }
        } else {
            e1
        };
        let f2 = if r2 == CollisionResolutionStrat::Yield {
            Entity { transform: nudged(e2.transform, ddx, ddy), ..e2 }
        } else {
            e2
        };
        (f1, f2)
    }
}

/// One step of the detection pass on the pair `(i, j)`: emit an event and
/// resolve in place when the pair collides, otherwise change nothing.
pub open spec fn step_pair(
    s: Seq<Entity>,
    evs: Seq<CollisionEvent>,
    i: int,
    j: int,
) -> (Seq<Entity>, Seq<CollisionEvent>) {
    if pair_collides(s[i], s[j]) {
        let pair = resolved_pair(s[i], s[j]);
        (
            s.update(i, pair.0).update(j, pair.1),
            evs.push(event_for(i as usize, j as usize, s[i], s[j])),
        )
    } else {
        (s, evs)
    }
}

/// The whole detection pass from pair `(i, j)` onward, in the order the
/// detector walks pairs: `j` ascending within ascending `i`.
pub open spec fn detect_from(
    s: Seq<Entity>,
    evs: Seq<CollisionEvent>,
    i: int,
    j: int,
) -> (Seq<Entity>, Seq<CollisionEvent>)
    decreases s.len() - i, s.len() - j,
{
    if !(0 <= i < s.len()) || j < i + 1 {
        (s, evs)
    } else if j >= s.len() {
        detect_from(s, evs, i + 1, i + 2)
    } else {
        let stepped = step_pair(s, evs, i, j);
        detect_from(stepped.0, stepped.1, i, j + 1)
    }
}

/// Examine the pair `(i, j)`: emit an event into `events` and resolve the
/// overlap in place when the pair collides.
fn process_pair(w: &mut World, i: usize, j: usize, events: &mut Vec<CollisionEvent>)
    requires
        wf_world(*old(w)),
        i < j < old(w).entities@.len(),
    ensures
        wf_world(*final(w)),
        final(w).bounds == old(w).bounds,
        final(w).entities@.len() == old(w).entities@.len(),
        (final(w).entities@, final(events)@) == step_pair(
            old(w).entities@,
            old(events)@,
            i as int,
            j as int,
        ),
{
    let e1 = w.entities[i];
    let e2 = w.entities[j];
    proof {
        assert(wf_entity(e1));
        assert(wf_entity(e2));
    }
    if !(e1.alive && e1.collision.is_some() && e2.alive && e2.collision.is_some()) {
        assert(!pair_collides(e1, e2));
        return ;
    }
    let c1 = e1.collision.unwrap();
    let c2 = e2.collision.unwrap();
    let blocked: bool = match (e1.affiliation, e2.affiliation) {
        (Some(a1), Some(a2)) => a1 == a2 && !(a1 == Affiliation::Hostile),
        _ => false,
    };
    if blocked {
        assert(!pair_collides(e1, e2));
        return ;
    }
    assert(!affiliation_blocks(e1, e2));
    let sq: u64 = dist_sq(e1.transform.pos, e2.transform.pos);
    let rsum: i64 = c1.radius + c2.radius;
    proof {
        assert(0 <= rsum <= 2 * LIM);
        assert((rsum as u128) * (rsum as u128) == (rsum as int) * (rsum as int)
            && (rsum as int) * (rsum as int) <= 4_000_000_000_000_000_000) by (nonlinear_arith)
            requires
                0 <= rsum <= 2_000_000_000,
        ;
    }
    if !((sq as u128) < (rsum as u128) * (rsum as u128)) {
        assert(!pair_overlaps(e1, e2));
        return ;
    }
    assert(pair_collides(e1, e2));
    let dir = unit_toward(e1.transform.pos, e2.transform.pos);
    let ev = CollisionEvent {
        a: i,
        b: j,
        damage_a: e1.damage,
        damage_b: e2.damage,
        direction: dir,
        knockback_a: match e1.knockback {
            Some(k) => k.amount,
            None => 0,
        },
        knockback_b: match e2.knockback {
            Some(k) => k.amount,
            None => 0,
        },
    };
    events.push(ev);
    assert(ev == event_for(i, j, e1, e2));
    if c1.collision_resolution == CollisionResolutionStrat::Prevent
        || c2.collision_resolution == CollisionResolutionStrat::Prevent {
        let f1 = e1;
        let f2 = e2;
        w.entities[i] = f1;
        w.entities[j] = f2;
        return ;
    }
    let dst: u64 = dist(e1.transform.pos, e2.transform.pos);
    proof {
        crate::vec2::lemma_sqrt_floor_bracket(sq as nat);
        assert((dst as int) * (dst as int) <= sq as int);
        assert((dst as int) < rsum as int) by (nonlinear_arith)
            requires
                (dst as int) * (dst as int) <= sq as int,
                (sq as int) < (rsum as int) * (rsum as int),
                dst >= 0,
                rsum >= 0,
        ;
    }
    let pen: i64 = rsum - (dst as i64);
    let dx = mul_div(pen, dir.x, SCALE);
    let dy = mul_div(pen, dir.y, SCALE);
    let y1 = c1.collision_resolution == CollisionResolutionStrat::Yield;
    let y2 = c2.collision_resolution == CollisionResolutionStrat::Yield;
    let ddx = if y1 && y2 {
        mul_div(dx, 1, 2)
    } else {
        dx
    };
    let ddy = if y1 && y2 {
        mul_div(dy, 1, 2)
    } else {
        dy
    };
    let f1 = if y1 {
        let mut t = e1;
        t.transform = Transform {
            pos: Vec2 {
                x: add_clamped(e1.transform.pos.x, -ddx),
                y: add_clamped(e1.transform.pos.y, -ddy),
            },
            ..e1.transform
        };
        t
    } else {
        e1
    };
    let f2 = if y2 {
        let mut t = e2;
        t.transform = Transform {
            pos: Vec2 {
                x: add_clamped(e2.transform.pos.x, ddx),
                y: add_clamped(e2.transform.pos.y, ddy),
            },
            ..e2.transform
        };
        t
    } else {
        e2
    };
    proof {
        assert((f1, f2) == resolved_pair(e1, e2));
    }
    w.entities[i] = f1;
    w.entities[j] = f2;
}

/// The collision detector and resolver: walk every unordered pair once, in
/// index order, emitting one event per overlapping pair and resolving
/// overlaps in place as it goes. Returns the tick's event batch.
#[verifier::loop_isolation(false)]
pub fn check_collisions(w: &mut World) -> (events: Vec<CollisionEvent>)
    requires
        wf_world(*old(w)),
    ensures
        wf_world(*final(w)),
        final(w).bounds == old(w).bounds,
        final(w).entities@.len() == old(w).entities@.len(),
        (final(w).entities@, events@) == detect_from(old(w).entities@, Seq::empty(), 0, 1),
{
    let mut events: Vec<CollisionEvent> = Vec::new();
    let n = w.entities.len();
    let goal: Ghost<(Seq<Entity>, Seq<CollisionEvent>)> = Ghost(
        detect_from(old(w).entities@, Seq::empty(), 0, 1),
    );
    let mut i: usize = 0;
    while i < n
        invariant
            0 <= i <= n,
            w.entities@.len() == n,
            w.bounds == old(w).bounds,
            wf_world(*w),
            goal@ == detect_from(w.entities@, events@, i as int, i + 1),
        decreases n - i,
    {
        let mut j: usize = i + 1;
        while j < n
            invariant
                i < j <= n,
                i < n,
                w.entities@.len() == n,
                w.bounds == old(w).bounds,
                wf_world(*w),
                goal@ == detect_from(w.entities@, events@, i as int, j as int),
            decreases n - j,
        {
            process_pair(w, i, j, &mut events);
            j = j + 1;
        }
        i = i + 1;
    }
    events
}

/// Detection is symmetric: the pair `(A, B)` collides exactly when the
/// pair `(B, A)` does.
pub proof fn lemma_detection_symmetric(e1: Entity, e2: Entity)
    ensures
        pair_collides(e1, e2) == pair_collides(e2, e1),
{
    assert(dist_sq_spec(e1.transform.pos, e2.transform.pos) == dist_sq_spec(
        e2.transform.pos,
        e1.transform.pos,
    )) by (nonlinear_arith);
    assert((e1.collision->0.radius + e2.collision->0.radius) * (e1.collision->0.radius
        + e2.collision->0.radius) == (e2.collision->0.radius + e1.collision->0.radius) * (
    e2.collision->0.radius + e1.collision->0.radius)) by (nonlinear_arith);
}

/// Two hostile entities are always checked against each other: the
/// affiliation exemption never applies to a hostile pair.
pub proof fn lemma_hostile_pair_checked(e1: Entity, e2: Entity)
    requires
        collidable(e1),
        collidable(e2),
        e1.affiliation == Some(Affiliation::Hostile),
        e2.affiliation == Some(Affiliation::Hostile),
    ensures
        pair_collides(e1, e2) == pair_overlaps(e1, e2),
{
}

/// Two neutral entities are never checked, whatever their distance.
pub proof fn lemma_neutral_pair_skipped(e1: Entity, e2: Entity)
    requires
        e1.affiliation == Some(Affiliation::Neutral),
        e2.affiliation == Some(Affiliation::Neutral),
    ensures
        !pair_collides(e1, e2),
{
}

} // verus!

//! Lifetime accounting and bullet culling.
//!
//! Every live entity with a lifetime advances its timer by the tick's
//! duration. A separate cull pass despawns bullets whose timer has elapsed
//! — and, independently of any timer, every bullet that took part in any
//! of this tick's collision events: for that class, any qualifying
//! collision is instant death, with no damage accounting.

use vstd::prelude::*;
use crate::collision::CollisionEvent;
use crate::components::Entity;
use crate::components::Kind;
use crate::components::Lifetime;
use crate::components::lifetime_finished;
use crate::components::wf_entity;
use crate::fixed::MAX_DT;
use crate::fixed::add_clamped;
use crate::fixed::add_clamped_spec;
use crate::world::World;
use crate::world::wf_world;

verus! {

/// What the timer pass does to one store slot: a live entity's lifetime
/// advances by `dt`, saturating.
pub open spec fn tick_entity(e: Entity, dt: int) -> Entity {
    if e.alive && e.lifetime is Some {
        Entity {
            lifetime: Some(
                Lifetime {
                    elapsed: add_clamped_spec(e.lifetime->0.elapsed as int, dt) as i64,
                    ..e.lifetime->0
                },
            ),
            ..e
        }
    } else {
        e
    }
}

/// Whether any event of the batch names the entity at `idx`.
pub open spec fn participates(idx: int, evs: Seq<CollisionEvent>) -> bool {
    exists|k: int| 0 <= k < evs.len() && ((#[trigger] evs[k]).a == idx || evs[k].b == idx)
}

/// A bullet due for culling: its timer has elapsed, or any collision event
/// of the tick names it.
pub open spec fn bullet_doomed(e: Entity, idx: int, evs: Seq<CollisionEvent>) -> bool {
    &&& e.alive
    &&& e.kind == Kind::Bullet
    &&& e.lifetime is Some
    &&& (lifetime_finished(e.lifetime->0) || participates(idx, evs))
}

/// What the cull pass does to one store slot.
pub open spec fn cull_entity(e: Entity, idx: int, evs: Seq<CollisionEvent>) -> Entity {
    if bullet_doomed(e, idx, evs) {
        Entity { alive: false, ..e }
    } else {
        e
    }
}

/// A bullet named by no collision event is culled exactly when its
/// cumulative elapsed time has reached its duration — never earlier.
pub proof fn lemma_cull_on_expiry(e: Entity, idx: int, evs: Seq<CollisionEvent>)
    requires
        e.alive,
        e.kind == Kind::Bullet,
        e.lifetime is Some,
        !participates(idx, evs),
    ensures
        !cull_entity(e, idx, evs).alive <==> e.lifetime->0.elapsed >= e.lifetime->0.duration,
{
}

/// Advance every live timer by `dt` milliseconds.
#[verifier::loop_isolation(false)]
pub fn tick_lifetime(w: &mut World, dt: i64)
    requires
        wf_world(*old(w)),
        0 <= dt <= MAX_DT,
    ensures
        wf_world(*final(w)),
        final(w).bounds == old(w).bounds,
        final(w).entities@.len() == old(w).entities@.len(),
        forall|i: int|
            0 <= i < old(w).entities@.len() ==> final(w).entities@[i] == tick_entity(
                old(w).entities@[i],
                dt as int,
            ),
{
    let n = w.entities.len();
    let mut i: usize = 0;
    while i < n
        invariant
            0 <= i <= n,
            w.entities@.len() == n,
            w.bounds == old(w).bounds,
            forall|j: int|
                0 <= j < i ==> w.entities@[j] == tick_entity(old(w).entities@[j], dt as int),
            forall|j: int| i <= j < n ==> w.entities@[j] == old(w).entities@[j],
            forall|j: int| 0 <= j < n ==> wf_entity(#[trigger] w.entities@[j]),
        decreases n - i,
    {
        let e = w.entities[i];
        if e.alive && e.lifetime.is_some() {
            let l = e.lifetime.unwrap();
            let mut e2 = e;
            e2.lifetime = Some(
                Lifetime { elapsed: add_clamped(l.elapsed, dt), duration: l.duration },
            );
            w.entities[i] = e2;
        }
        i = i + 1;
    }
}

/// Despawn every bullet whose timer has elapsed, and every bullet named by
/// any of this tick's collision events.
#[verifier::loop_isolation(false)]
pub fn cull_bullets(w: &mut World, events: &Vec<CollisionEvent>)
    requires
        wf_world(*old(w)),
    ensures
        wf_world(*final(w)),
        final(w).bounds == old(w).bounds,
        final(w).entities@.len() == old(w).entities@.len(),
        forall|i: int|
            0 <= i < old(w).entities@.len() ==> final(w).entities@[i] == cull_entity(
                old(w).entities@[i],
                i,
                events@,
            ),
{
    let n = w.entities.len();
    let m = events.len();
    let mut i: usize = 0;
    while i < n
        invariant
            0 <= i <= n,
            w.entities@.len() == n,
            w.bounds == old(w).bounds,
            forall|j: int|
                0 <= j < i ==> w.entities@[j] == cull_entity(old(w).entities@[j], j, events@),
            forall|j: int| i <= j < n ==> w.entities@[j] == old(w).entities@[j],
            forall|j: int| 0 <= j < n ==> wf_entity(#[trigger] w.entities@[j]),
        decreases n - i,
    {
        let e = w.entities[i];
        if e.alive && e.kind == Kind::Bullet && e.lifetime.is_some() {
            let l = e.lifetime.unwrap();
            let mut doomed = l.elapsed >= l.duration;
            let mut k: usize = 0;
            while k < m
                invariant
                    0 <= k <= m,
                    doomed == (lifetime_finished(e.lifetime->0) || exists|t: int|
                        0 <= t < k && ((#[trigger] events@[t]).a == i as int || events@[t].b
                            == i as int)),
                decreases m - k,
            {
                let ev = events[k];
                if ev.a == i || ev.b == i {
                    doomed = true;
                    proof {
                        assert(0 <= k < k + 1 && (events@[k as int].a == i as int
                            || events@[k as int].b == i as int));
                    }
                }
                k = k + 1;
            }
            if doomed {
                let mut e2 = e;
                e2.alive = false;
                w.entities[i] = e2;
            }
        }
        i = i + 1;
    }
}

} // verus!

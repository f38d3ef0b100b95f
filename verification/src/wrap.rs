//! Boundary wrapping.
//!
//! After movement, any wrappable entity found beyond half the arena bound on
//! an axis, and still moving outward on that axis (its position and velocity
//! share a sign), has that coordinate negated: a single-shot reflection to
//! the opposite edge, not a modulo wrap. An entity already moving back in is
//! left alone, which guards against oscillation at the boundary.

use vstd::prelude::*;
use crate::components::Entity;
use crate::components::Transform;
use crate::components::wf_entity;
use crate::vec2::Vec2;
use crate::world::World;
use crate::world::wf_world;

verus! {

/// One axis of the wrap rule: negate the coordinate when it lies beyond
/// half the bound and the velocity carries it further out. The sign test
/// matches on strict negativity, so a resting entity beyond the positive
/// edge counts as moving outward and is wrapped.
pub open spec fn wrap_coord(pos: int, vel: int, bound: int) -> int {
    if (if pos >= 0 {
        pos
    } else {
        -pos
    }) > bound / 2 && ((pos < 0) == (vel < 0)) {
        -pos
    } else {
        pos
    }
}

/// What the wrap pass does to one store slot: only live, wrappable entities
/// with a velocity are reflected, each axis independently.
pub open spec fn wrap_entity(e: Entity, bounds: Vec2) -> Entity {
    if e.alive && e.wrappable && e.velocity is Some {
        Entity {
            transform: Transform {
                pos: Vec2 {
                    x: wrap_coord(
                        e.transform.pos.x as int,
                        e.velocity->0.translation_speed.x as int,
                        bounds.x as int,
                    ) as i64,
                    y: wrap_coord(
                        e.transform.pos.y as int,
                        e.velocity->0.translation_speed.y as int,
                        bounds.y as int,
                    ) as i64,
                },
                ..e.transform
            },
            ..e
        }
    } else {
        e
    }
}

/// Reflect every live wrappable entity that has crossed an arena edge while
/// moving outward.
#[verifier::loop_isolation(false)]
pub fn wrap_step(w: &mut World)
    requires
        wf_world(*old(w)),
    ensures
        wf_world(*final(w)),
        final(w).bounds == old(w).bounds,
        final(w).entities@.len() == old(w).entities@.len(),
        forall|i: int|
            0 <= i < old(w).entities@.len() ==> final(w).entities@[i] == wrap_entity(
                old(w).entities@[i],
                old(w).bounds,
            ),
{
    let half_x = w.bounds.x / 2;
    let half_y = w.bounds.y / 2;
    let n = w.entities.len();
    let mut i: usize = 0;
    while i < n
        invariant
            0 <= i <= n,
            w.entities@.len() == n,
            w.bounds == old(w).bounds,
            forall|j: int|
                0 <= j < i ==> w.entities@[j] == wrap_entity(old(w).entities@[j], old(w).bounds),
            forall|j: int| i <= j < n ==> w.entities@[j] == old(w).entities@[j],
            forall|j: int| 0 <= j < n ==> wf_entity(#[trigger] w.entities@[j]),
        decreases n - i,
    {
        let e = w.entities[i];
        if e.alive && e.wrappable && e.velocity.is_some() {
            let v = e.velocity.unwrap();
            let px = e.transform.pos.x;
            let py = e.transform.pos.y;
            let ax = if px >= 0 {
                px
            } else {
                -px
            };
            let ay = if py >= 0 {
                py
            } else {
                -py
            };
            let nx = if ax > half_x && ((px < 0) == (v.translation_speed.x < 0)) {
                -px
            } else {
                px
            };
            let ny = if ay > half_y && ((py < 0) == (v.translation_speed.y < 0)) {
                -py
            } else {
                py
            };
            let mut e2 = e;
            e2.transform = Transform { pos: Vec2 { x: nx, y: ny }, ..e.transform };
            w.entities[i] = e2;
        }
        i = i + 1;
    }
}

/// An entity that has crossed the positive edge while moving outward is
/// negated exactly once: applying the rule again to the reflected
/// coordinate leaves it alone.
pub proof fn lemma_wrap_outward_once(pos: int, vel: int, bound: int)
    requires
        bound >= 0,
        pos > bound / 2,
        vel >= 0,
    ensures
        wrap_coord(pos, vel, bound) == -pos,
        wrap_coord(-pos, vel, bound) == -pos,
{
}

/// An entity beyond the positive edge but moving back inward is never
/// wrapped.
pub proof fn lemma_wrap_inward_noop(pos: int, vel: int, bound: int)
    requires
        bound >= 0,
        pos > bound / 2,
        vel < 0,
    ensures
        wrap_coord(pos, vel, bound) == pos,
{
}

} // verus!

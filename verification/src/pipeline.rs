//! The per-tick pipeline, in its fixed order: input control, kinematic
//! integration, drag, boundary wrap, collision detection and resolution,
//! then — over the same event batch — asteroid damage and fragmentation,
//! player damage, lifetime accounting and bullet culling. A tick is atomic:
//! spawns land in the store before the next tick begins, and the event
//! batch never outlives its tick.

use vstd::prelude::*;
use crate::collision::CollisionEvent;
use crate::collision::check_collisions;
use crate::collision::detect_from;
use crate::collision::event_for;
use crate::collision::pair_collides;
use crate::collision::resolved_pair;
use crate::collision::step_pair;
use crate::components::Damage;
use crate::components::Entity;
use crate::components::wf_entity;
use crate::control::Intents;
use crate::control::controller_rel;
use crate::control::player_controller;
use crate::damage::asteroid_damage_fold;
use crate::damage::asteroid_side_step;
use crate::damage::asteroid_sized;
use crate::damage::break_asteroids;
use crate::damage::hit_entity;
use crate::damage::hurt_player;
use crate::damage::is_fragment;
use crate::damage::player_damage_fold;
use crate::damage::player_event_step;
use crate::damage::wf_event;
use crate::fixed::MAX_DT;
use crate::kinematics::drag_entity;
use crate::kinematics::drag_step;
use crate::kinematics::kin_entity;
use crate::kinematics::kinematics_step;
use crate::lifetime::cull_bullets;
use crate::lifetime::cull_entity;
use crate::lifetime::tick_entity;
use crate::lifetime::tick_lifetime;
use crate::vec2::Vec2;
use crate::world::World;
use crate::world::is_player;
use crate::world::player_count;
use crate::world::wf_world;
use crate::wrap::wrap_entity;
use crate::wrap::wrap_step;

verus! {

/// Only the transform differs between the two entities.
pub open spec fn same_but_transform(a: Entity, b: Entity) -> bool {
    b == (Entity { transform: b.transform, ..a })
}

/// A live player carries a velocity — the controller's precondition,
/// preserved by every pass.
pub open spec fn player_has_velocity(e: Entity) -> bool {
    is_player(e) ==> e.velocity is Some
}

/// The detection pass changes nothing but transforms, keeps entities well
/// formed, and appends only well-formed events.
pub proof fn lemma_detect_from_frame(s: Seq<Entity>, evs: Seq<CollisionEvent>, i: int, j: int)
    requires
        forall|k: int| 0 <= k < s.len() ==> wf_entity(#[trigger] s[k]),
        forall|k: int| 0 <= k < evs.len() ==> wf_event(#[trigger] evs[k]),
    ensures
        detect_from(s, evs, i, j).0.len() == s.len(),
        forall|k: int|
            0 <= k < s.len() ==> same_but_transform(
                s[k],
                #[trigger] detect_from(s, evs, i, j).0[k],
            ),
        forall|k: int| 0 <= k < s.len() ==> wf_entity(#[trigger] detect_from(s, evs, i, j).0[k]),
        forall|k: int|
            0 <= k < detect_from(s, evs, i, j).1.len() ==> wf_event(
                #[trigger] detect_from(s, evs, i, j).1[k],
            ),
    decreases s.len() - i, s.len() - j,
{
    if !(0 <= i < s.len()) || j < i + 1 {
    } else if j >= s.len() {
        lemma_detect_from_frame(s, evs, i + 1, i + 2);
    } else {
        let stepped = step_pair(s, evs, i, j);
        if pair_collides(s[i], s[j]) {
            let pair = resolved_pair(s[i], s[j]);
            assert(same_but_transform(s[i], pair.0) && wf_entity(pair.0));
            assert(same_but_transform(s[j], pair.1) && wf_entity(pair.1));
            assert(wf_event(event_for(i as usize, j as usize, s[i], s[j])));
        }
        lemma_detect_from_frame(stepped.0, stepped.1, i, j + 1);
    }
}

/// A property preserved by `hit_entity` is preserved across the whole
/// asteroid damage fold.
pub proof fn lemma_asteroid_fold_preserves(
    s: Seq<Entity>,
    evs: Seq<CollisionEvent>,
    k: int,
    p: spec_fn(Entity) -> bool,
)
    requires
        forall|e: Entity, opp: Option<Damage>, dir: Vec2, kb: i64, sign: int|
            p(e) && e.alive && e.health is Some && e.velocity is Some ==> p(
                #[trigger] hit_entity(e, opp, dir, kb, sign),
            ),
        forall|i: int| 0 <= i < s.len() ==> p(#[trigger] s[i]),
    ensures
        asteroid_damage_fold(s, evs, k).len() == s.len(),
        forall|i: int| 0 <= i < s.len() ==> p(#[trigger] asteroid_damage_fold(s, evs, k)[i]),
    decreases evs.len() - k,
{
    if !(0 <= k < evs.len()) {
    } else {
        let s1 = asteroid_side_step(s, evs[k], 0);
        let s2 = asteroid_side_step(s1, evs[k], 1);
        assert(forall|i: int| 0 <= i < s1.len() ==> p(#[trigger] s1[i]));
        assert(forall|i: int| 0 <= i < s2.len() ==> p(#[trigger] s2[i]));
        lemma_asteroid_fold_preserves(s2, evs, k + 1, p);
    }
}

/// A property preserved by `hit_entity` is preserved across the whole
/// player damage fold.
pub proof fn lemma_player_fold_preserves(
    s: Seq<Entity>,
    evs: Seq<CollisionEvent>,
    k: int,
    p: spec_fn(Entity) -> bool,
)
    requires
        forall|e: Entity, opp: Option<Damage>, dir: Vec2, kb: i64, sign: int|
            p(e) && e.alive && e.health is Some && e.velocity is Some ==> p(
                #[trigger] hit_entity(e, opp, dir, kb, sign),
            ),
        forall|i: int| 0 <= i < s.len() ==> p(#[trigger] s[i]),
    ensures
        player_damage_fold(s, evs, k).len() == s.len(),
        forall|i: int| 0 <= i < s.len() ==> p(#[trigger] player_damage_fold(s, evs, k)[i]),
    decreases evs.len() - k,
{
    if !(0 <= k < evs.len()) {
    } else {
        let s1 = player_event_step(s, evs[k]);
        assert(forall|i: int| 0 <= i < s1.len() ==> p(#[trigger] s1[i]));
        lemma_player_fold_preserves(s1, evs, k + 1, p);
    }
}

/// Kinematics applied to every slot.
pub open spec fn kin_all(s: Seq<Entity>, s2: Seq<Entity>, dt: int) -> bool {
    s2.len() == s.len() && forall|i: int| 0 <= i < s.len() ==> #[trigger] s2[i] == kin_entity(
        s[i],
        dt,
    )
}

/// Drag applied to every slot.
pub open spec fn drag_all(s: Seq<Entity>, s2: Seq<Entity>, dt: int) -> bool {
    s2.len() == s.len() && forall|i: int| 0 <= i < s.len() ==> #[trigger] s2[i] == drag_entity(
        s[i],
        dt,
    )
}

/// Boundary wrap applied to every slot.
pub open spec fn wrap_all(s: Seq<Entity>, s2: Seq<Entity>, bounds: Vec2) -> bool {
    s2.len() == s.len() && forall|i: int| 0 <= i < s.len() ==> #[trigger] s2[i] == wrap_entity(
        s[i],
        bounds,
    )
}

/// Lifetime accounting applied to every slot.
pub open spec fn tick_all(s: Seq<Entity>, s2: Seq<Entity>, dt: int) -> bool {
    s2.len() == s.len() && forall|i: int| 0 <= i < s.len() ==> #[trigger] s2[i] == tick_entity(
        s[i],
        dt,
    )
}

/// Bullet culling applied to every slot.
pub open spec fn cull_all(s: Seq<Entity>, s2: Seq<Entity>, evs: Seq<CollisionEvent>) -> bool {
    s2.len() == s.len() && forall|i: int| 0 <= i < s.len() ==> #[trigger] s2[i] == cull_entity(
        s[i],
        i,
        evs,
    )
}

/// The asteroid pass: the old slots folded, only fragments appended.
pub open spec fn break_rel(s: Seq<Entity>, evs: Seq<CollisionEvent>, s2: Seq<Entity>) -> bool {
    &&& s2.len() >= s.len()
    &&& s2.subrange(0, s.len() as int) == asteroid_damage_fold(s, evs, 0)
    &&& forall|m: int| s.len() <= m < s2.len() ==> is_fragment(#[trigger] s2[m])
}

/// What one tick does: the composition of every pass, in order, with the
/// returned batch exactly the detector's output on the post-movement
/// state.
pub open spec fn step_rel(
    s: Seq<Entity>,
    s_final: Seq<Entity>,
    evs: Seq<CollisionEvent>,
    intents: Intents,
    dt: int,
    bounds: Vec2,
) -> bool {
    exists|t1: Seq<Entity>, t2: Seq<Entity>, t3: Seq<Entity>, t4: Seq<Entity>, t5: Seq<Entity>, t6: Seq<Entity>, t7: Seq<Entity>, t8: Seq<Entity>|
        #![trigger controller_rel(s, t1, intents, dt), kin_all(t1, t2, dt), drag_all(t2, t3, dt), wrap_all(t3, t4, bounds), break_rel(t5, evs, t6), tick_all(t7, t8, dt)]
        {
            &&& controller_rel(s, t1, intents, dt)
            &&& kin_all(t1, t2, dt)
            &&& drag_all(t2, t3, dt)
            &&& wrap_all(t3, t4, bounds)
            &&& (t5, evs) == detect_from(t4, Seq::<CollisionEvent>::empty(), 0, 1)
            &&& break_rel(t5, evs, t6)
            &&& t7 == player_damage_fold(t6, evs, 0)
            &&& tick_all(t7, t8, dt)
            &&& cull_all(t8, s_final, evs)
        }
}

/// Advance the simulation by one tick of `dt` milliseconds under the given
/// input intents, and return the tick's collision events.
pub fn step(w: &mut World, intents: Intents, dt: i64, rng: &mut rand::rngs::ThreadRng) -> (events:
    Vec<CollisionEvent>)
    requires
        wf_world(*old(w)),
        0 <= dt <= MAX_DT,
        player_count(old(w).entities@) == 1,
        forall|i: int|
            0 <= i < old(w).entities@.len() ==> player_has_velocity(#[trigger] old(w).entities@[i]),
        forall|i: int|
            0 <= i < old(w).entities@.len() ==> asteroid_sized(#[trigger] old(w).entities@[i]),
    ensures
        wf_world(*final(w)),
        final(w).bounds == old(w).bounds,
        final(w).entities@.len() >= old(w).entities@.len(),
        forall|i: int|
            0 <= i < final(w).entities@.len() ==> asteroid_sized(#[trigger] final(w).entities@[i]),
        forall|i: int|
            0 <= i < final(w).entities@.len() ==> player_has_velocity(
                #[trigger] final(w).entities@[i],
            ),
        step_rel(
            old(w).entities@,
            final(w).entities@,
            events@,
            intents,
            dt as int,
            old(w).bounds,
        ),
{
    player_controller(w, intents, dt);
    let ghost t1 = w.entities@;
    kinematics_step(w, dt);
    let ghost t2 = w.entities@;
    drag_step(w, dt);
    let ghost t3 = w.entities@;
    wrap_step(w);
    let ghost t4 = w.entities@;
    let events = check_collisions(w);
    let ghost t5 = w.entities@;
    proof {
        lemma_detect_from_frame(t4, Seq::<CollisionEvent>::empty(), 0, 1);
        let ghost pass = detect_from(t4, Seq::<CollisionEvent>::empty(), 0, 1);
        assert(t5 == pass.0 && events@ == pass.1);
        assert forall|k: int| 0 <= k < events@.len() implies wf_event(#[trigger] events@[k]) by {
            assert(events@[k] == pass.1[k]);
        }
        assert forall|i: int| 0 <= i < t5.len() implies asteroid_sized(#[trigger] t5[i]) by {
            assert(same_but_transform(t4[i], pass.0[i]));
        }
    }
    proof {
        lemma_asteroid_fold_preserves(t5, events@, 0, |e: Entity| player_has_velocity(e));
    }
    break_asteroids(w, &events, rng);
    let ghost t6 = w.entities@;
    proof {
        assert forall|i: int| 0 <= i < t6.len() implies player_has_velocity(#[trigger] t6[i]) by {
            if i < t5.len() {
                assert(t6[i] == t6.subrange(0, t5.len() as int)[i]);
            }
        }
        lemma_player_fold_preserves(t6, events@, 0, |e: Entity| wf_entity(e));
        lemma_player_fold_preserves(t6, events@, 0, |e: Entity| asteroid_sized(e));
        lemma_player_fold_preserves(t6, events@, 0, |e: Entity| player_has_velocity(e));
    }
    hurt_player(w, &events);
    let ghost t7 = w.entities@;
    tick_lifetime(w, dt);
    let ghost t8 = w.entities@;
    cull_bullets(w, &events);
    proof {
        assert(step_rel(
            old(w).entities@,
            w.entities@,
            events@,
            intents,
            dt as int,
            old(w).bounds,
        )) by {
            assert(controller_rel(old(w).entities@, t1, intents, dt as int) && kin_all(
                t1,
                t2,
                dt as int,
            ) && drag_all(t2, t3, dt as int) && wrap_all(t3, t4, old(w).bounds) && (t5, events@)
                == detect_from(t4, Seq::<CollisionEvent>::empty(), 0, 1) && break_rel(
                t5,
                events@,
                t6,
            ) && t7 == player_damage_fold(t6, events@, 0) && tick_all(t7, t8, dt as int)
                && cull_all(t8, w.entities@, events@));
        }
    }
    events
}

} // verus!

//! The entity store and the arena configuration.
//!
//! Entities live in a flat vector; an index is an entity's identity for the
//! whole run. Despawning clears the `alive` flag and leaves the slot in
//! place, so indices held by collision events stay meaningful within a tick.
//! Spawns during an iteration pass are deferred by the caller and appended
//! after the pass completes.

use vstd::prelude::*;
use crate::components::Entity;
use crate::components::Kind;
use crate::components::wf_entity;
use crate::vec2::Vec2;
use crate::vec2::wf_vec2;

verus! {

/// Whether the simulation advances or holds; flipped by a pause intent.
#[derive(Clone, Copy, Debug, PartialEq, Eq, Structural)]
pub enum GameState {
    Play,
    Paused,
}

impl GameState {
    /// The other state: pausing toggles between play and pause.
    pub fn toggled(self) -> (r: GameState)
        ensures
            self == GameState::Play ==> r == GameState::Paused,
            self == GameState::Paused ==> r == GameState::Play,
    {
        match self {
            GameState::Play => GameState::Paused,
            GameState::Paused => GameState::Play,
        }
    }
}

/// The whole simulation state: the entity store and the arena bounds
/// (width and height of the wrap-around rectangle, in milli-units,
/// centered on the origin).
pub struct World {
    pub entities: Vec<Entity>,
    pub bounds: Vec2,
}

/// A live player slot.
pub open spec fn is_player(e: Entity) -> bool {
    e.alive && e.kind == Kind::Player
}

/// How many live players the store holds; the simulation's precondition is
/// that this is exactly one wherever a player-singleton rule runs.
pub open spec fn player_count(s: Seq<Entity>) -> int
    decreases s.len(),
{
    if s.len() == 0 {
        0
    } else {
        player_count(s.drop_last()) + if is_player(s.last()) {
            1int
        } else {
            0int
        }
    }
}

/// Every entity well formed, bounds nonnegative and in range.
pub open spec fn wf_world(w: World) -> bool {
    &&& forall|i: int|
        0 <= i < w.entities@.len() ==> wf_entity(#[trigger] w.entities@[i])
    &&& wf_vec2(w.bounds)
    &&& w.bounds.x >= 0
    &&& w.bounds.y >= 0
}

/// Appending an entity raises the player count by one exactly when the
/// entity is a live player.
pub proof fn lemma_player_count_push(s: Seq<Entity>, e: Entity)
    ensures
        player_count(s.push(e)) == player_count(s) + (if is_player(e) {
            1int
        } else {
            0int
        }),
{
    assert(s.push(e).drop_last() =~= s);
}

/// A store with no live player slot counts zero players.
pub proof fn lemma_no_player_zero(s: Seq<Entity>)
    requires
        forall|i: int| 0 <= i < s.len() ==> !is_player(#[trigger] s[i]),
    ensures
        player_count(s) == 0,
    decreases s.len(),
{
    if s.len() > 0 {
        assert forall|i: int| 0 <= i < s.drop_last().len() implies !is_player(
            #[trigger] s.drop_last()[i],
        ) by {
            assert(s.drop_last()[i] == s[i]);
        }
        lemma_no_player_zero(s.drop_last());
    }
}

/// Count the live players in the store.
#[verifier::loop_isolation(false)]
pub fn count_players(w: &World) -> (r: usize)
    ensures
        r as int == player_count(w.entities@),
{
    let n = w.entities.len();
    let mut c: usize = 0;
    let mut i: usize = 0;
    while i < n
        invariant
            0 <= i <= n,
            c <= i,
            c as int == player_count(w.entities@.subrange(0, i as int)),
        decreases n - i,
    {
        let e = w.entities[i];
        proof {
            assert(w.entities@.subrange(0, i + 1).drop_last() =~= w.entities@.subrange(
                0,
                i as int,
            ));
            assert(w.entities@.subrange(0, i + 1).last() == w.entities@[i as int]);
        }
        if e.alive && e.kind == Kind::Player {
            c = c + 1;
        }
        i = i + 1;
    }
    proof {
        assert(w.entities@.subrange(0, n as int) =~= w.entities@);
    }
    c
}

impl World {
    /// An empty arena with the given bounds.
    pub fn new(bounds: Vec2) -> (w: World)
        requires
            wf_vec2(bounds),
            bounds.x >= 0,
            bounds.y >= 0,
        ensures
            wf_world(w),
            w.entities@.len() == 0,
            w.bounds == bounds,
    {
        World { entities: Vec::new(), bounds }
    }

    /// Append an entity; its index is its identity from here on.
    pub fn spawn(&mut self, e: Entity) -> (id: usize)
        requires
            wf_entity(e),
        ensures
            final(self).entities@ == old(self).entities@.push(e),
            id == old(self).entities@.len(),
            final(self).bounds == old(self).bounds,
            wf_world(*old(self)) ==> wf_world(*final(self)),
    {
        let id = self.entities.len();
        self.entities.push(e);
        proof {
            assert forall|i: int|
                0 <= i < self.entities@.len() && wf_world(*old(self)) implies wf_entity(
                self.entities@[i],
            ) by {
                if i < old(self).entities@.len() {
                    assert(self.entities@[i] == old(self).entities@[i]);
                }
            }
        }
        id
    }

    /// Clear an entity's live flag; the slot stays.
    pub fn despawn(&mut self, id: usize)
        requires
            id < old(self).entities@.len(),
        ensures
            final(self).entities@.len() == old(self).entities@.len(),
            final(self).entities@[id as int].alive == false,
            forall|i: int|
                0 <= i < final(self).entities@.len() && i != id ==> final(self).entities@[i] == old(
                self,
            ).entities@[i],
            final(self).entities@[id as int] == (Entity {
                alive: false,
                ..old(self).entities@[id as int]
            }),
            final(self).bounds == old(self).bounds,
    {
        let mut e = self.entities[id];
        e.alive = false;
        self.entities[id] = e;
    }
}

} // verus!

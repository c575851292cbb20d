//! The actor table: an explicit registry of every entity in the combat
//! scene, keyed by a stable integer identifier. Whether an actor carries an
//! optional component (action points, movement points, collidability) is a
//! lookup in its row, never a dynamic query.

use vstd::prelude::*;
use crate::components::ActionPoints;
use crate::components::ActorId;
use crate::components::ControlType;
use crate::components::MovementPoints;
use crate::components::Position;

verus! {

/// One row of the actor table: an actor's identity, its position, and its
/// optional components.
#[derive(Copy, Clone, Debug)]
pub struct Actor {
    /// Stable identifier the rest of the engine refers to this actor by.
    pub id: ActorId,
    /// Where the actor stands on the tile map.
    pub pos: Position,
    /// The actor's action-point pool, when it takes part in the action
    /// economy.
    pub action_points: Option<ActionPoints>,
    /// The actor's movement-point pool; an actor without one is exempt from
    /// the movement budget.
    pub movement_points: Option<MovementPoints>,
    /// Whether the actor is a solid obstacle for movement validation.
    pub collidable: bool,
    /// Which side controls the actor, when any does.
    pub control: Option<ControlType>,
}

/// No two rows share an identifier.
pub open spec fn unique_ids(s: Seq<Actor>) -> bool {
    forall|i: int, j: int| 0 <= i < j < s.len() ==> (#[trigger] s[i]).id != (#[trigger] s[j]).id
}

/// Whether an actor with the given identifier exists.
pub open spec fn has_actor(s: Seq<Actor>, id: ActorId) -> bool {
    exists|i: int| 0 <= i < s.len() && (#[trigger] s[i]).id == id
}

/// The row index of the actor with the given identifier.
pub open spec fn idx_of(s: Seq<Actor>, id: ActorId) -> int {
    choose|i: int| 0 <= i < s.len() && (#[trigger] s[i]).id == id
}

/// The row of the actor with the given identifier.
pub open spec fn actor_of(s: Seq<Actor>, id: ActorId) -> Actor {
    s[idx_of(s, id)]
}

/// In a table without repeated identifiers, any row holding an identifier
/// is the row `idx_of` picks.
pub proof fn lemma_idx_of_unique(s: Seq<Actor>, k: int)
    requires
        unique_ids(s),
        0 <= k < s.len(),
    ensures
        idx_of(s, s[k].id) == k,
        has_actor(s, s[k].id),
{
    assert(0 <= k < s.len() && s[k].id == s[k].id);
    let i = idx_of(s, s[k].id);
    if i != k {
        assert(s[i].id != s[k].id);
    }
}

/// The explicit table of all actors in the scene.
#[derive(Clone, Debug)]
pub struct ActorTable {
    pub entries: Vec<Actor>,
}

impl View for ActorTable {
    type V = Seq<Actor>;

    open spec fn view(&self) -> Seq<Actor> {
        self.entries@
    }
}

impl ActorTable {
    /// The table holds each identifier at most once.
    pub open spec fn wf(&self) -> bool {
        unique_ids(self@)
    }

    /// An empty table.
    pub fn new() -> (r: Self)
        ensures
            r.wf(),
            r@.len() == 0,
    {
        Self { entries: Vec::new() }
    }

    /// How many actors the table holds.
    pub fn len(&self) -> (r: usize)
        ensures
            r == self@.len(),
    {
        self.entries.len()
    }

    /// The row at a given index.
    pub fn at(&self, k: usize) -> (r: Actor)
        requires
            k < self@.len(),
        ensures
            r == self@[k as int],
    {
        self.entries[k]
    }

    /// Adds an actor under a fresh identifier.
    pub fn spawn(&mut self, actor: Actor)
        requires
            old(self).wf(),
            !has_actor(old(self)@, actor.id),
        ensures
            final(self).wf(),
            final(self)@ == old(self)@.push(actor),
    {
        self.entries.push(actor);
        proof {
            assert(forall|j: int|
                0 <= j < old(self)@.len() ==> #[trigger] final(self)@[j] == old(self)@[j]);
        }
    }

    /// The row index of an actor, when it exists.
    pub fn find(&self, id: ActorId) -> (r: Option<usize>)
        requires
            self.wf(),
        ensures
            r is Some <==> has_actor(self@, id),
            r matches Some(k) ==> k as int == idx_of(self@, id) && k < self@.len()
                && self@[k as int].id == id,
    {
        let mut k: usize = 0;
        while k < self.entries.len()
            invariant
                k <= self@.len(),
                self.wf(),
                forall|j: int| 0 <= j < k ==> (#[trigger] self@[j]).id != id,
            decreases self@.len() - k,
        {
            if self.entries[k].id == id {
                proof {
                    lemma_idx_of_unique(self@, k as int);
                }
                return Some(k);
            }
            k = k + 1;
        }
        None
    }

    /// The row of an actor, when it exists.
    pub fn get(&self, id: ActorId) -> (r: Option<Actor>)
        requires
            self.wf(),
        ensures
            r == if has_actor(self@, id) {
                Some(actor_of(self@, id))
            } else {
                None::<Actor>
            },
    {
        match self.find(id) {
            Some(k) => Some(self.entries[k]),
            None => None,
        }
    }

    /// Replaces the row at an index; the identifier stays, so the table
    /// remains uniquely keyed.
    pub fn set_at(&mut self, k: usize, actor: Actor)
        requires
            old(self).wf(),
            k < old(self)@.len(),
            actor.id == old(self)@[k as int].id,
        ensures
            final(self).wf(),
            final(self)@ == old(self)@.update(k as int, actor),
    {
        self.entries.set(k, actor);
        proof {
            assert(forall|j: int|
                0 <= j < old(self)@.len() && j != k ==> #[trigger] final(self)@[j] == old(
                    self,
                )@[j]);
        }
    }
}

} // verus!

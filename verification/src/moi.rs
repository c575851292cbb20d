//! Messages of intent (MOIs): transient, single-purpose records expressing a
//! desired world mutation. An intent lives for at most one simulation tick:
//! it is produced by input translation or the control state machine and
//! consumed, unconditionally, by the resolver that drains its queue.

use vstd::prelude::*;
use crate::components::ActorId;
use crate::components::Position;

verus! {

/// Intent expressing that an entity is performing a reload action. A
/// reserved extension point: no resolver acts on it yet.
#[derive(Copy, Clone, Debug)]
pub struct MOIReload(pub ActorId);

impl MOIReload {
    pub fn new(entity: ActorId) -> (r: Self)
        ensures
            r.0 == entity,
    {
        Self(entity)
    }

    /// The entity that is reloading its weapon.
    pub fn entity(&self) -> (r: ActorId)
        ensures
            r == self.0,
    {
        self.0
    }
}

/// Intent expressing that an entity wants to move one tile.
#[derive(Copy, Clone, PartialEq, Eq, Structural, Debug)]
pub struct MOIWantsToMove {
    /// Whether the mover is subject to walkability and occupancy checks;
    /// collision-free movers (such as a targeting cursor) only need the
    /// destination to be on the map.
    pub collision: bool,
    /// The entity that wants to move.
    pub entity: ActorId,
    /// Where it wants to move to.
    pub destination: Position,
}

impl MOIWantsToMove {
    pub fn new(collision: bool, entity: ActorId, destination: Position) -> (r: Self)
        ensures
            r == (MOIWantsToMove { collision, entity, destination }),
    {
        Self { collision, entity, destination }
    }

    pub fn get(&self) -> (r: (bool, ActorId, Position))
        ensures
            r == (self.collision, self.entity, self.destination),
    {
        (self.collision, self.entity, self.destination)
    }
}

/// Intent expressing that the currently active character wants to end its
/// turn. Its presence alone is the signal: any number of these queued in one
/// tick collapse into a single end-of-turn.
#[derive(Copy, Clone, PartialEq, Eq, Structural, Debug)]
pub struct MOIEndTurn;

} // verus!

//! Per-actor components of the combat core: rendering handle, control
//! affiliation, the combat encounter (turn sequencer), and the action-point
//! and movement-point resource pools.

use vstd::prelude::*;

verus! {

/// Stable identifier of an actor in the actor table.
pub type ActorId = u64;

/// A 2D integer grid coordinate.
#[derive(Copy, Clone, PartialEq, Eq, Structural, Debug)]
pub struct Position {
    pub x: i32,
    pub y: i32,
}

/// Component that allows an entity to be rendered; holds the key under which
/// the renderer looks up the texture for this entity.
#[derive(Clone, Debug)]
pub struct Renderable {
    pub sprite: String,
}

impl Renderable {
    pub fn new(sprite: String) -> (r: Self)
        ensures
            r.sprite@ == sprite@,
    {
        Self { sprite }
    }

    pub fn get_sprite(&self) -> (r: String)
        ensures
            r@ == self.sprite@,
    {
        self.sprite.clone()
    }
}

/// Which side controls an actor: the player or the opponent.
#[derive(Copy, Clone, PartialEq, Eq, Structural, Debug)]
pub enum ControlType {
    PC,
    NPC,
}

/// Whether every entry of an initiative order has acted this round.
pub open spec fn all_acted(order: Seq<(ActorId, bool)>) -> bool {
    forall|i: int| 0 <= i < order.len() ==> (#[trigger] order[i]).1
}

/// Index of the first entry of an initiative order that has not acted yet.
pub open spec fn first_unacted(order: Seq<(ActorId, bool)>) -> Option<int>
    decreases order.len(),
{
    if order.len() == 0 {
        None
    } else if !order[0].1 {
        Some(0int)
    } else {
        match first_unacted(order.drop_first()) {
            Some(i) => Some(i + 1),
            None => None,
        }
    }
}

/// The actor whose turn it is: the first not-yet-acted entry, if any.
pub open spec fn next_turn_spec(order: Seq<(ActorId, bool)>) -> Option<ActorId> {
    match first_unacted(order) {
        Some(i) => Some(order[i].0),
        None => None,
    }
}

/// The order with its first not-yet-acted entry marked as acted; unchanged
/// when every entry has already acted.
pub open spec fn mark_first(order: Seq<(ActorId, bool)>) -> Seq<(ActorId, bool)> {
    match first_unacted(order) {
        Some(i) => order.update(i, (order[i].0, true)),
        None => order,
    }
}

/// The order with every entry reset to not-yet-acted.
pub open spec fn clear_flags(order: Seq<(ActorId, bool)>) -> Seq<(ActorId, bool)> {
    order.map_values(|p: (ActorId, bool)| (p.0, false))
}

/// The actor ids of an initiative order, in order.
pub open spec fn order_ids(order: Seq<(ActorId, bool)>) -> Seq<ActorId> {
    order.map_values(|p: (ActorId, bool)| p.0)
}

/// One `complete_turn` call as a transition on the encounter state: mark the
/// first unacted entry, then, if that completed the round, reset every flag
/// and count the round. Yields the new order, the new round count, and
/// whether the round was completed.
pub open spec fn complete_turn_spec(order: Seq<(ActorId, bool)>, rounds: int) -> (
    Seq<(ActorId, bool)>,
    int,
    bool,
) {
    let marked = mark_first(order);
    if all_acted(marked) {
        (clear_flags(marked), rounds + 1, true)
    } else {
        (marked, rounds, false)
    }
}

/// `first_unacted` is exactly the position reached by scanning past acted
/// entries: if the first `k` entries have acted and entry `k` (when it
/// exists) has not, the first unacted index is `k`, or nothing when `k` is
/// the whole order.
pub proof fn lemma_first_unacted_is(order: Seq<(ActorId, bool)>, k: int)
    requires
        0 <= k <= order.len(),
        forall|j: int| 0 <= j < k ==> (#[trigger] order[j]).1,
        k < order.len() ==> !order[k].1,
    ensures
        first_unacted(order) == if k == order.len() {
            None::<int>
        } else {
            Some(k)
        },
    decreases k,
{
    if k == 0 {
    } else {
        assert(order[0].1);
        let rest = order.drop_first();
        assert(forall|j: int| 0 <= j < k - 1 ==> (#[trigger] rest[j]).1);
        lemma_first_unacted_is(rest, k - 1);
    }
}

/// The entry `next_turn` picks really is the lexicographically first one
/// still to act: it has not acted, every earlier entry has, and nothing is
/// picked exactly when every entry has acted.
pub proof fn lemma_next_turn_is_first_unacted(order: Seq<(ActorId, bool)>)
    ensures
        first_unacted(order) is None <==> all_acted(order),
        first_unacted(order) matches Some(i) ==> 0 <= i < order.len() && !order[i].1 && (forall|
            j: int,
        | 0 <= j < i ==> (#[trigger] order[j]).1),
    decreases order.len(),
{
    if order.len() == 0 {
    } else if !order[0].1 {
    } else {
        let rest = order.drop_first();
        lemma_next_turn_is_first_unacted(rest);
        assert(forall|j: int| 0 <= j < rest.len() ==> rest[j] == order[j + 1]);
        match first_unacted(rest) {
            None => {
                assert forall|i: int| 0 <= i < order.len() implies (#[trigger] order[i]).1 by {
                    if i > 0 {
                        assert(rest[i - 1].1);
                    }
                }
            },
            Some(i2) => {
                assert(first_unacted(order) == Some(i2 + 1));
                assert(!order[i2 + 1].1);
                assert forall|j: int| 0 <= j < i2 + 1 implies (#[trigger] order[j]).1 by {
                    if j > 0 {
                        assert(rest[j - 1].1);
                    }
                }
            },
        }
    }
}

/// An initiative order over the given actors in which nobody has acted yet:
/// the state at the start of a round.
pub open spec fn fresh_order(ids: Seq<ActorId>) -> Seq<(ActorId, bool)> {
    ids.map_values(|id: ActorId| (id, false))
}

/// An initiative order over the given actors in which exactly the first `k`
/// entries have acted.
pub open spec fn partly_acted(ids: Seq<ActorId>, k: int) -> Seq<(ActorId, bool)> {
    Seq::new(ids.len(), |i: int| (ids[i], i < k))
}

/// The encounter state after `n` consecutive `complete_turn` calls.
pub open spec fn iterate_complete_turn(
    order: Seq<(ActorId, bool)>,
    rounds: int,
    n: nat,
) -> (Seq<(ActorId, bool)>, int)
    decreases n,
{
    if n == 0 {
        (order, rounds)
    } else {
        let prev = iterate_complete_turn(order, rounds, (n - 1) as nat);
        let step = complete_turn_spec(prev.0, prev.1);
        (step.0, step.1)
    }
}

/// One `complete_turn` call on an order whose first `k` entries have acted
/// marks entry `k`: it completes the round exactly when `k` was the last
/// entry, in which case the flags reset and the round is counted.
pub proof fn lemma_complete_turn_step(ids: Seq<ActorId>, k: int, rounds: int)
    requires
        0 <= k < ids.len(),
    ensures
        k < ids.len() - 1 ==> complete_turn_spec(partly_acted(ids, k), rounds) == (
        partly_acted(ids, k + 1),
        rounds,
        false,
        ),
        k == ids.len() - 1 ==> complete_turn_spec(partly_acted(ids, k), rounds) == (
        fresh_order(ids),
        rounds + 1,
        true,
        ),
{
    let order = partly_acted(ids, k);
    lemma_first_unacted_is(order, k);
    assert(mark_first(order) =~= partly_acted(ids, k + 1));
    if k == ids.len() - 1 {
        assert(all_acted(partly_acted(ids, k + 1)));
        assert(clear_flags(partly_acted(ids, k + 1)) =~= fresh_order(ids));
    } else {
        assert(!partly_acted(ids, k + 1)[k + 1].1);
        assert(!all_acted(partly_acted(ids, k + 1)));
    }
}

/// An encounter with `N` actors needs exactly `N` `complete_turn` calls per
/// round: starting from a fresh initiative order, after any `k < N` such
/// calls the round count is unchanged and exactly the first `k` entries have
/// acted, and the next call reports round completion exactly when it is the
/// `N`-th; the `N`-th call returns the order to fresh and counts the round.
pub proof fn lemma_round_takes_n_calls(ids: Seq<ActorId>, rounds: int, k: nat)
    requires
        k < ids.len(),
    ensures
        ({
            let state = iterate_complete_turn(fresh_order(ids), rounds, k);
            let step = complete_turn_spec(state.0, state.1);
            state.0 == partly_acted(ids, k as int) && state.1 == rounds && step.2 == (k + 1
                == ids.len()) && (k + 1 == ids.len() ==> step.0 == fresh_order(ids) && step.1
                == rounds + 1)
        }),
    decreases k,
{
    if k == 0 {
        assert(fresh_order(ids) =~= partly_acted(ids, 0));
    } else {
        lemma_round_takes_n_calls(ids, rounds, (k - 1) as nat);
        lemma_complete_turn_step(ids, k - 1, rounds);
    }
    lemma_complete_turn_step(ids, k as int, rounds);
}

/// Struct that defines who is in a combat encounter and tracks what is
/// needed to sequence through them in initiative order.
#[derive(Clone, Debug)]
pub struct CombatEncounter {
    /// The order of the entries determines initiative; each actor id is
    /// paired with a flag recording whether it has completed its turn this
    /// round.
    pub initiative_order: Vec<(ActorId, bool)>,
    /// How many full rounds the encounter has taken so far.
    pub num_rounds: i32,
}

impl CombatEncounter {
    /// Creates a new combat encounter. The actors passed in must already be
    /// sorted by initiative; their order is fixed for the encounter's
    /// lifetime.
    pub fn new(combatants: Vec<ActorId>) -> (r: Self)
        ensures
            r.initiative_order@ == combatants@.map_values(|id: ActorId| (id, false)),
            r.num_rounds == 0,
    {
        let mut initiative_order: Vec<(ActorId, bool)> = Vec::new();
        let mut k: usize = 0;
        while k < combatants.len()
            invariant
                k <= combatants.len(),
                initiative_order@ == combatants@.take(k as int).map_values(
                    |id: ActorId| (id, false),
                ),
            decreases combatants.len() - k,
        {
            initiative_order.push((combatants[k], false));
            proof {
                assert(combatants@.take(k + 1).map_values(|id: ActorId| (id, false))
                    =~= combatants@.take(k as int).map_values(|id: ActorId| (id, false)).push(
                    (combatants@[k as int], false),
                ));
            }
            k = k + 1;
        }
        proof {
            assert(combatants@.take(combatants@.len() as int) =~= combatants@);
        }
        Self { initiative_order, num_rounds: 0 }
    }

    /// Returns the id of the next actor in the initiative order to go: the
    /// first entry that has not completed its turn this round, or nothing
    /// when every entry has.
    pub fn next_turn(&self) -> (r: Option<ActorId>)
        ensures
            r == next_turn_spec(self.initiative_order@),
    {
        let mut k: usize = 0;
        while k < self.initiative_order.len()
            invariant
                k <= self.initiative_order.len(),
                forall|j: int| 0 <= j < k ==> (#[trigger] self.initiative_order@[j]).1,
            decreases self.initiative_order.len() - k,
        {
            if !self.initiative_order[k].1 {
                proof {
                    lemma_first_unacted_is(self.initiative_order@, k as int);
                }
                return Some(self.initiative_order[k].0);
            }
            k = k + 1;
        }
        proof {
            lemma_first_unacted_is(self.initiative_order@, self.initiative_order@.len() as int);
        }
        None
    }

    /// Marks the first not-yet-acted entry of the initiative order as acted,
    /// then checks for round completion. Returns true exactly when this call
    /// completed the round.
    pub fn complete_turn(&mut self) -> (r: bool)
        requires
            old(self).num_rounds < i32::MAX,
        ensures
            ({
                let step = complete_turn_spec(
                    old(self).initiative_order@,
                    old(self).num_rounds as int,
                );
                final(self).initiative_order@ == step.0 && final(self).num_rounds as int == step.1
                    && r == step.2
            }),
    {
        let ghost order0 = self.initiative_order@;
        let ghost rounds0 = self.num_rounds;
        let mut k: usize = 0;
        let mut marked = false;
        while k < self.initiative_order.len() && !marked
            invariant
                k <= self.initiative_order.len(),
                self.num_rounds == rounds0,
                rounds0 < i32::MAX,
                !marked ==> self.initiative_order@ == order0 && (forall|j: int|
                    0 <= j < k ==> (#[trigger] order0[j]).1),
                marked ==> k >= 1 && first_unacted(order0) == Some(k - 1)
                    && self.initiative_order@ == mark_first(order0),
            decreases self.initiative_order.len() - k,
        {
            if !self.initiative_order[k].1 {
                proof {
                    lemma_first_unacted_is(order0, k as int);
                }
                let pair = self.initiative_order[k];
                self.initiative_order.set(k, (pair.0, true));
                marked = true;
            }
            k = k + 1;
        }
        proof {
            if !marked {
                lemma_first_unacted_is(order0, order0.len() as int);
            }
        }
        self.check_round_completion()
    }

    /// If every entry of the initiative order has completed its turn,
    /// increments the round count, resets every entry to not-yet-acted, and
    /// returns true; otherwise changes nothing and returns false.
    pub fn check_round_completion(&mut self) -> (r: bool)
        requires
            old(self).num_rounds < i32::MAX,
        ensures
            all_acted(old(self).initiative_order@) ==> final(self).initiative_order@ == clear_flags(
                old(self).initiative_order@,
            ) && final(self).num_rounds == old(self).num_rounds + 1 && r,
            !all_acted(old(self).initiative_order@) ==> final(self).initiative_order@ == old(
                self,
            ).initiative_order@ && final(self).num_rounds == old(self).num_rounds && !r,
    {
        let ghost order0 = self.initiative_order@;
        let ghost rounds0 = self.num_rounds;
        let mut is_complete = true;
        let mut k: usize = 0;
        while k < self.initiative_order.len()
            invariant
                k <= self.initiative_order.len(),
                self.initiative_order@ == order0,
                self.num_rounds == rounds0,
                rounds0 < i32::MAX,
                is_complete == (forall|j: int| 0 <= j < k ==> (#[trigger] order0[j]).1),
            decreases self.initiative_order.len() - k,
        {
            if !self.initiative_order[k].1 {
                is_complete = false;
            }
            k = k + 1;
        }
        if is_complete {
            self.num_rounds = self.num_rounds + 1;
            let mut k: usize = 0;
            while k < self.initiative_order.len()
                invariant
                    k <= self.initiative_order.len(),
                    self.initiative_order@.len() == order0.len(),
                    self.num_rounds == rounds0 + 1,
                    forall|j: int|
                        0 <= j < k ==> #[trigger] self.initiative_order@[j] == (order0[j].0, false),
                    forall|j: int|
                        k <= j < order0.len() ==> #[trigger] self.initiative_order@[j] == order0[j],
                decreases self.initiative_order.len() - k,
            {
                let pair = self.initiative_order[k];
                self.initiative_order.set(k, (pair.0, false));
                k = k + 1;
            }
            proof {
                assert(self.initiative_order@ =~= clear_flags(order0));
            }
            true
        } else {
            false
        }
    }

    /// Returns all the actors of the encounter, in initiative order.
    pub fn get_all_entities(&self) -> (r: Vec<ActorId>)
        ensures
            r@ == order_ids(self.initiative_order@),
    {
        let mut all_entities: Vec<ActorId> = Vec::new();
        let mut k: usize = 0;
        while k < self.initiative_order.len()
            invariant
                k <= self.initiative_order.len(),
                all_entities@ == order_ids(self.initiative_order@.take(k as int)),
            decreases self.initiative_order.len() - k,
        {
            all_entities.push(self.initiative_order[k].0);
            proof {
                assert(order_ids(self.initiative_order@.take(k + 1)) =~= order_ids(
                    self.initiative_order@.take(k as int),
                ).push(self.initiative_order@[k as int].0));
            }
            k = k + 1;
        }
        proof {
            assert(self.initiative_order@.take(self.initiative_order@.len() as int)
                =~= self.initiative_order@);
        }
        all_entities
    }
}

/// An entity's action points, the per-turn budget for the turn-based combat
/// system. The budget starts at 3 and is restored to 3 on round completion.
#[derive(Copy, Clone, PartialEq, Eq, Structural, Debug)]
pub struct ActionPoints(pub i32);

impl ActionPoints {
    /// A fresh pool holding the full budget of 3 points.
    pub fn new() -> (r: Self)
        ensures
            r.0 == 3,
    {
        Self(3)
    }

    /// Consumes the 2 points that a significant action costs when at least 2
    /// points remain; otherwise leaves the pool unchanged. Either way the
    /// returned value carries the points remaining after the call.
    pub fn significant_action(&mut self) -> (r: Result<i32, i32>)
        ensures
            old(self).0 >= 2 ==> final(self).0 == old(self).0 - 2
                && r == Ok::<i32, i32>(final(self).0),
            old(self).0 < 2 ==> final(self).0 == old(self).0
                && r == Err::<i32, i32>(old(self).0),
    {
        if self.0 >= 2 {
            self.0 = self.0 - 2;
            Ok(self.0)
        } else {
            Err(self.0)
        }
    }

    /// Consumes the 1 point that a minor action costs when at least 1 point
    /// remains; otherwise leaves the pool unchanged.
    pub fn minor_action(&mut self) -> (r: Result<i32, i32>)
        ensures
            old(self).0 >= 1 ==> final(self).0 == old(self).0 - 1
                && r == Ok::<i32, i32>(final(self).0),
            old(self).0 < 1 ==> final(self).0 == old(self).0
                && r == Err::<i32, i32>(old(self).0),
    {
        if self.0 >= 1 {
            self.0 = self.0 - 1;
            Ok(self.0)
        } else {
            Err(self.0)
        }
    }

    /// Consumes the whole budget at once. There is deliberately no guard, so
    /// the pool can go negative; the bound below only keeps the subtraction
    /// within the machine integer.
    pub fn full_turn(&mut self)
        requires
            old(self).0 >= i32::MIN + 3,
        ensures
            final(self).0 == old(self).0 - 3,
    {
        self.0 = self.0 - 3;
    }

    /// Restores the pool to the full budget.
    pub fn reset(&mut self)
        ensures
            final(self).0 == 3,
    {
        self.0 = 3;
    }

    /// The points currently left.
    pub fn get(&self) -> (r: i32)
        ensures
            r == self.0,
    {
        self.0
    }
}

/// An entity's movement points: the number of single-tile steps left in the
/// current movement phase, bounded by a per-actor maximum.
#[derive(Copy, Clone, PartialEq, Eq, Structural, Debug)]
pub struct MovementPoints {
    pub max: i32,
    pub current: i32,
}

impl MovementPoints {
    /// A pool with a custom budget, for non-standard actors.
    pub fn new(max: i32) -> (r: Self)
        ensures
            r.max == max,
            r.current == max,
    {
        Self { max, current: max }
    }

    /// The budget of a standard humanoid actor.
    pub fn default() -> (r: Self)
        ensures
            r.max == 3,
            r.current == 3,
    {
        Self { max: 3, current: 3 }
    }

    /// Spends one movement point. Callers must have checked `can_move` first:
    /// the pool is never driven below zero.
    pub fn decrement(&mut self)
        requires
            old(self).current >= 1,
        ensures
            final(self).current == old(self).current - 1,
            final(self).max == old(self).max,
    {
        self.current = self.current - 1;
    }

    /// Restores the pool to its maximum, done when the controlling actor
    /// leaves its movement phase.
    pub fn reset(&mut self)
        ensures
            final(self).current == old(self).max,
            final(self).max == old(self).max,
    {
        self.current = self.max;
    }

    /// Whether any movement points are left.
    pub fn can_move(&self) -> (r: bool)
        ensures
            r == (self.current > 0),
    {
        if self.current > 0 {
            true
        } else {
            false
        }
    }

    /// The movement points currently left.
    pub fn current(&self) -> (r: i32)
        ensures
            r == self.current,
    {
        self.current
    }
}

/// Tag component pointing at the weapon an entity currently has equipped.
pub struct EquippedRangedWeapon(pub ActorId);

/// A line destined for the engine debug log.
pub struct DebugLogMessage(pub String);

impl DebugLogMessage {
    pub fn new(contents: String) -> (r: Self)
        ensures
            r.0@ == contents@,
    {
        Self(contents)
    }
}

/// A line destined for the player-facing game log.
pub struct GameLogMessage(pub String);

impl GameLogMessage {
    pub fn new(contents: String) -> (r: Self)
        ensures
            r.0@ == contents@,
    {
        Self(contents)
    }
}

} // verus!

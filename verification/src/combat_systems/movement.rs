//! The movement resolver: drains every movement intent queued this tick and
//! applies each, in queue order, against the budget, walkability and
//! occupancy rules. Rejections are non-fatal: the intent is consumed, the
//! world is left unchanged, and a report is logged where the rules say so.

use vstd::prelude::*;
use crate::actors::Actor;
use crate::actors::ActorTable;
use crate::actors::actor_of;
use crate::actors::has_actor;
use crate::actors::idx_of;
use crate::actors::lemma_idx_of_unique;
use crate::actors::unique_ids;
use crate::components::ActorId;
use crate::components::MovementPoints;
use crate::components::Position;
use crate::game_map::GameMap;
use crate::gamestate::GameState;
use crate::gamestate::GameView;
use crate::gamestate::LogEvent;
use crate::gamestate::wf_game;
use crate::moi::MOIWantsToMove;

verus! {

/// Whether some other collidable actor already stands on a position.
pub open spec fn occupied_by_other(s: Seq<Actor>, mover: ActorId, dest: Position) -> bool {
    exists|j: int|
        0 <= j < s.len() && (#[trigger] s[j]).id != mover && s[j].collidable && s[j].pos == dest
}

/// Whether the map and the other actors admit a move: a collision-checked
/// mover needs a walkable, unoccupied destination; a collision-free mover
/// only needs the destination to be on the map.
pub open spec fn move_accepted(s: Seq<Actor>, map: GameMap, moi: MOIWantsToMove) -> bool {
    if moi.collision {
        map.spec_can_enter_tile(moi.destination) && !occupied_by_other(
            s,
            moi.entity,
            moi.destination,
        )
    } else {
        map.spec_in_bounds(moi.destination)
    }
}

/// Whether the mover's budget allows a step: an actor without a
/// movement-point pool is exempt from the budget check.
pub open spec fn budget_allows(a: Actor) -> bool {
    match a.movement_points {
        Some(mp) => mp.current > 0,
        None => true,
    }
}

/// The effect of one movement intent on the actor table, with the log
/// events it reports: nothing for a vanished actor; a budget-exhausted
/// report for an empty pool; on an accepted move, the new position, one
/// movement point spent when the mover has a pool, and a report of the
/// remaining budget.
pub open spec fn apply_move_intent(s: Seq<Actor>, map: GameMap, moi: MOIWantsToMove) -> (
    Seq<Actor>,
    Seq<LogEvent>,
) {
    if !has_actor(s, moi.entity) {
        (s, Seq::<LogEvent>::empty())
    } else {
        let i = idx_of(s, moi.entity);
        let a = s[i];
        if !budget_allows(a) {
            (s, seq![LogEvent::OutOfMovementPoints])
        } else if move_accepted(s, map, moi) {
            match a.movement_points {
                Some(mp) => (
                    s.update(
                        i,
                        Actor {
                            pos: moi.destination,
                            movement_points: Some(
                                MovementPoints { max: mp.max, current: (mp.current - 1) as i32 },
                            ),
                            ..a
                        },
                    ),
                    seq![LogEvent::MovementPointsRemaining((mp.current - 1) as i32)],
                ),
                None => (s.update(i, Actor { pos: moi.destination, ..a }), Seq::<LogEvent>::empty()),
            }
        } else {
            (s, Seq::<LogEvent>::empty())
        }
    }
}

/// The effect of a queue of movement intents, applied in order; the logged
/// reports are concatenated in the same order.
pub open spec fn apply_move_intents(s: Seq<Actor>, map: GameMap, mois: Seq<MOIWantsToMove>) -> (
    Seq<Actor>,
    Seq<LogEvent>,
)
    decreases mois.len(),
{
    if mois.len() == 0 {
        (s, Seq::<LogEvent>::empty())
    } else {
        let prev = apply_move_intents(s, map, mois.drop_last());
        let step = apply_move_intent(prev.0, map, mois.last());
        (step.0, prev.1 + step.1)
    }
}

/// The movement resolver as a transition on the whole game context: the
/// movement queue is drained, the actor table becomes the result of
/// applying the queued intents in order, and their reports are appended to
/// the game log. Nothing else changes.
pub open spec fn movement_step(g: GameView) -> GameView {
    let res = apply_move_intents(g.actors, g.map, g.move_intents);
    GameView { actors: res.0, game_log: g.game_log + res.1, move_intents: Seq::empty(), ..g }
}

/// Replacing a row by one with the same identifier keeps the table uniquely
/// keyed and leaves every other actor's row as it was.
pub proof fn lemma_actor_update(s: Seq<Actor>, i: int, a: Actor)
    requires
        unique_ids(s),
        0 <= i < s.len(),
        a.id == s[i].id,
    ensures
        unique_ids(s.update(i, a)),
        forall|id: ActorId| has_actor(s.update(i, a), id) == has_actor(s, id),
        actor_of(s.update(i, a), a.id) == a,
        forall|id: ActorId|
            has_actor(s, id) && id != a.id ==> actor_of(s.update(i, a), id) == actor_of(s, id),
{
    let t = s.update(i, a);
    assert(forall|j: int| 0 <= j < s.len() && j != i ==> #[trigger] t[j] == s[j]);
    assert(forall|j: int| 0 <= j < s.len() ==> (#[trigger] t[j]).id == s[j].id);
    assert forall|id: ActorId| has_actor(t, id) == has_actor(s, id) by {
        if has_actor(s, id) {
            let j = idx_of(s, id);
            assert(t[j].id == id);
        }
        if has_actor(t, id) {
            let j = idx_of(t, id);
            assert(s[j].id == id);
        }
    }
    lemma_idx_of_unique(t, i);
    assert(actor_of(t, a.id) == a);
    assert forall|id: ActorId|
        has_actor(s, id) && id != a.id implies actor_of(t, id) == actor_of(s, id) by {
        let j = idx_of(s, id);
        assert(s[j].id == id);
        lemma_idx_of_unique(s, j);
        assert(j != i);
        lemma_idx_of_unique(t, j);
    }
}

/// Whether some other collidable actor already stands on the destination.
/// Mirrors the staging protocol: the occupied positions are read in one
/// pass over the table before any mutation.
fn destination_occupied(actors: &ActorTable, mover: ActorId, dest: Position) -> (r: bool)
    ensures
        r == occupied_by_other(actors@, mover, dest),
{
    let mut k: usize = 0;
    while k < actors.len()
        invariant
            k <= actors@.len(),
            !occupied_by_other(actors@.take(k as int), mover, dest),
        decreases actors@.len() - k,
    {
        let a = actors.at(k);
        if a.id != mover && a.collidable && a.pos.x == dest.x && a.pos.y == dest.y {
            proof {
                assert(actors@[k as int].id != mover && actors@[k as int].collidable
                    && actors@[k as int].pos == dest);
            }
            return true;
        }
        proof {
            assert(forall|j: int|
                0 <= j < k + 1 ==> actors@.take(k + 1)[j] == #[trigger] actors@[j]);
        }
        k = k + 1;
    }
    proof {
        assert(actors@.take(actors@.len() as int) =~= actors@);
    }
    false
}

/// Game system that processes all movement intents queued this tick. The
/// queue is copied into a local buffer and emptied before any world
/// mutation, so nothing is mutated while it is being scanned; every intent
/// is consumed, applied or not.
pub fn system(state: &mut GameState)
    requires
        old(state).wf(),
    ensures
        final(state).wf(),
        final(state)@ == movement_step(old(state)@),
{
    let ghost g0 = state@;
    // Stage 1 and 2 of the drain protocol: copy every queued intent into a
    // local buffer, then remove them from storage.
    let mut moving_mois: Vec<MOIWantsToMove> = Vec::new();
    let mut k: usize = 0;
    while k < state.move_intents.len()
        invariant
            k <= state.move_intents@.len(),
            moving_mois@ == state.move_intents@.take(k as int),
            state == old(state),
        decreases state.move_intents@.len() - k,
    {
        moving_mois.push(state.move_intents[k]);
        proof {
            assert(state.move_intents@.take(k + 1) =~= state.move_intents@.take(k as int).push(
                state.move_intents@[k as int],
            ));
        }
        k = k + 1;
    }
    proof {
        assert(moving_mois@ =~= g0.move_intents);
    }
    state.move_intents.clear();
    // Stages 3 and 4: only now apply the semantic effect of each buffered
    // intent, in queue order.
    let ghost mois = moving_mois@;
    let mut idx: usize = 0;
    while idx < moving_mois.len()
        invariant
            idx <= mois.len(),
            moving_mois@ == mois,
            wf_game(state@),
            state@ == (GameView {
                actors: apply_move_intents(g0.actors, g0.map, mois.take(idx as int)).0,
                game_log: g0.game_log + apply_move_intents(g0.actors, g0.map, mois.take(idx as int)).1,
                move_intents: Seq::empty(),
                ..g0
            }),
        decreases mois.len() - idx,
    {
        let ghost s_cur = state@.actors;
        let moi = moving_mois[idx];
        match state.actors.find(moi.entity) {
            None => {
                // The actor no longer exists: the request is silently
                // dropped.
            },
            Some(i) => {
                let a = state.actors.at(i);
                let can_move = match a.movement_points {
                    Some(mp) => mp.can_move(),
                    None => true,
                };
                if !can_move {
                    state.game_log.push(LogEvent::OutOfMovementPoints);
                } else {
                    let accepted = if moi.collision {
                        state.map.can_enter_tile(moi.destination) && !destination_occupied(
                            &state.actors,
                            moi.entity,
                            moi.destination,
                        )
                    } else {
                        state.map.in_bounds(moi.destination)
                    };
                    if accepted {
                        let mut moved = a;
                        moved.pos = moi.destination;
                        match a.movement_points {
                            Some(mp) => {
                                let mut mp2 = mp;
                                mp2.decrement();
                                moved.movement_points = Some(mp2);
                                state.actors.set_at(i, moved);
                                state.game_log.push(
                                    LogEvent::MovementPointsRemaining(mp2.current()),
                                );
                            },
                            None => {
                                state.actors.set_at(i, moved);
                            },
                        }
                        proof {
                            lemma_actor_update(s_cur, i as int, moved);
                        }
                    }
                }
            },
        }
        proof {
            assert(mois.take(idx + 1).drop_last() =~= mois.take(idx as int));
            assert(mois.take(idx + 1).last() == mois[idx as int]);
            assert(state@.actors =~= apply_move_intent(s_cur, g0.map, mois[idx as int]).0);
            assert(state@.game_log =~= g0.game_log + apply_move_intents(
                g0.actors,
                g0.map,
                mois.take(idx + 1),
            ).1);
        }
        idx = idx + 1;
    }
    proof {
        assert(mois.take(mois.len() as int) =~= mois);
    }
}

} // verus!

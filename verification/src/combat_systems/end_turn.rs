//! End-of-turn resolution, handled at encounter level: any number of
//! end-turn intents queued in one tick collapse into a single signal. The
//! queue is drained, one turn completion is performed, and, when that
//! completes the round, every combatant's action points are restored.

use vstd::prelude::*;
use crate::actors::Actor;
use crate::actors::actor_of;
use crate::actors::has_actor;
use crate::actors::idx_of;
use crate::actors::lemma_idx_of_unique;
use crate::actors::unique_ids;
use crate::components::ActionPoints;
use crate::components::ActorId;
use crate::components::all_acted;
use crate::components::complete_turn_spec;
use crate::components::clear_flags;
use crate::components::mark_first;
use crate::components::order_ids;
use crate::gamestate::GameState;
use crate::gamestate::GameView;
use crate::gamestate::LogEvent;
use crate::gamestate::wf_game;
use crate::moi::MOIEndTurn;

verus! {

/// The actor table with the action points of each listed actor restored to
/// the full budget; actors without an action-point pool, and identifiers
/// without an actor, are left alone.
pub open spec fn reset_ap(s: Seq<Actor>, ids: Seq<ActorId>) -> Seq<Actor>
    decreases ids.len(),
{
    if ids.len() == 0 {
        s
    } else {
        let prev = reset_ap(s, ids.drop_last());
        let id = ids.last();
        if has_actor(prev, id) && actor_of(prev, id).action_points is Some {
            prev.update(
                idx_of(prev, id),
                Actor { action_points: Some(ActionPoints(3)), ..actor_of(prev, id) },
            )
        } else {
            prev
        }
    }
}

/// End-of-turn resolution as a transition on the whole game context. With
/// no intent queued, nothing happens. With one or more, the queue is
/// consumed as a single signal: one turn completion is recorded, and when
/// it completes the round, every combatant's action points are restored.
pub open spec fn end_turn_step(g: GameView) -> GameView {
    if g.end_turn_intents.len() == 0 {
        GameView { end_turn_intents: Seq::empty(), ..g }
    } else {
        let step = complete_turn_spec(g.order, g.rounds);
        let actors2 = if step.2 {
            reset_ap(g.actors, order_ids(step.0))
        } else {
            g.actors
        };
        GameView {
            end_turn_intents: Seq::empty(),
            order: step.0,
            rounds: step.1,
            actors: actors2,
            debug_log: g.debug_log.push(LogEvent::CompletingTurn),
            ..g
        }
    }
}

/// Several end-of-turn intents queued in the same tick have exactly the
/// effect of one: resolution only asks whether any intent is present, so it
/// performs a single turn completion either way, never one per intent.
pub proof fn lemma_end_turn_intents_collapse(g: GameView)
    requires
        g.end_turn_intents.len() >= 1,
    ensures
        end_turn_step(g) == end_turn_step(
            GameView { end_turn_intents: seq![MOIEndTurn], ..g },
        ),
{
    assert(end_turn_step(g) =~= end_turn_step(
        GameView { end_turn_intents: seq![MOIEndTurn], ..g },
    ));
}

/// Completing a turn never changes which actors the initiative order names,
/// nor their order.
pub proof fn lemma_complete_turn_preserves_ids(order: Seq<(ActorId, bool)>, rounds: int)
    ensures
        order_ids(complete_turn_spec(order, rounds).0) == order_ids(order),
        complete_turn_spec(order, rounds).0.len() == order.len(),
{
    let marked = mark_first(order);
    crate::components::lemma_next_turn_is_first_unacted(order);
    assert(marked.len() == order.len());
    assert(forall|j: int| 0 <= j < order.len() ==> (#[trigger] marked[j]).0 == order[j].0);
    assert forall|j: int|
        0 <= j < order.len() implies #[trigger] order_ids(marked)[j] == order_ids(order)[j] by {
        assert(order_ids(marked)[j] == marked[j].0);
        assert(order_ids(order)[j] == order[j].0);
    }
    assert(order_ids(marked) =~= order_ids(order));
    let cleared = clear_flags(marked);
    assert forall|j: int|
        0 <= j < marked.len() implies #[trigger] order_ids(cleared)[j] == order_ids(marked)[j] by {
        assert(order_ids(cleared)[j] == cleared[j].0);
        assert(cleared[j].0 == marked[j].0);
    }
    assert(order_ids(cleared) =~= order_ids(marked));
}

/// Membership in a list splits into membership in all but the last entry or
/// equality with it.
proof fn lemma_contains_split(ids: Seq<ActorId>, x: ActorId)
    requires
        ids.len() > 0,
    ensures
        ids.contains(x) <==> (ids.drop_last().contains(x) || x == ids.last()),
{
    assert(forall|k: int| 0 <= k < ids.len() - 1 ==> #[trigger] ids.drop_last()[k] == ids[k]);
    if ids.contains(x) {
        let k = choose|k: int| 0 <= k < ids.len() && ids[k] == x;
        if k < ids.len() - 1 {
            assert(ids.drop_last()[k] == x);
        }
    }
    if ids.drop_last().contains(x) {
        let k = choose|k: int| 0 <= k < ids.drop_last().len() && ids.drop_last()[k] == x;
        assert(ids[k] == x);
    }
    if x == ids.last() {
        assert(ids[ids.len() - 1] == x);
    }
}

/// Row by row, restoring action points over a list of identifiers replaces
/// the pool of each listed actor that has one with the full budget and
/// leaves everything else exactly as it was.
pub proof fn lemma_reset_ap_elementwise(s: Seq<Actor>, ids: Seq<ActorId>)
    requires
        unique_ids(s),
    ensures
        reset_ap(s, ids).len() == s.len(),
        forall|j: int|
            0 <= j < s.len() ==> #[trigger] reset_ap(s, ids)[j] == (if ids.contains(s[j].id)
                && s[j].action_points is Some {
                Actor { action_points: Some(ActionPoints(3)), ..s[j] }
            } else {
                s[j]
            }),
        unique_ids(reset_ap(s, ids)),
    decreases ids.len(),
{
    if ids.len() > 0 {
        lemma_reset_ap_elementwise(s, ids.drop_last());
        let prev = reset_ap(s, ids.drop_last());
        let id = ids.last();
        let t = reset_ap(s, ids);
        assert(forall|j: int| 0 <= j < s.len() ==> (#[trigger] prev[j]).id == s[j].id);
        assert forall|x: ActorId| #[trigger]
            ids.contains(x) == (ids.drop_last().contains(x) || x == ids.last()) by {
            lemma_contains_split(ids, x);
        }
        if has_actor(prev, id) && actor_of(prev, id).action_points is Some {
            let i = idx_of(prev, id);
            assert(0 <= i < prev.len() && prev[i].id == id);
            assert forall|j: int| 0 <= j < s.len() implies #[trigger] t[j] == (if ids.contains(
                s[j].id,
            ) && s[j].action_points is Some {
                Actor { action_points: Some(ActionPoints(3)), ..s[j] }
            } else {
                s[j]
            }) by {
                if j != i {
                    assert(t[j] == prev[j]);
                    assert(s[j].id != id) by {
                        if s[j].id == id {
                            lemma_idx_of_unique(prev, j);
                        }
                    }
                } else {
                    assert(s[i].id == id);
                    assert(ids.contains(id)) by {
                        assert(ids[ids.len() - 1] == id);
                    }
                }
            }
        } else {
            assert forall|j: int| 0 <= j < s.len() implies #[trigger] t[j] == (if ids.contains(
                s[j].id,
            ) && s[j].action_points is Some {
                Actor { action_points: Some(ActionPoints(3)), ..s[j] }
            } else {
                s[j]
            }) by {
                if s[j].id == id {
                    assert(prev[j].id == id);
                    assert(has_actor(prev, id));
                    lemma_idx_of_unique(prev, j);
                    assert(actor_of(prev, id) == prev[j]);
                }
            }
        }
        assert(forall|j: int| 0 <= j < s.len() ==> (#[trigger] t[j]).id == s[j].id);
    }
}

/// After a call that completes the round, every combatant of the encounter
/// that carries an action-point pool holds the full budget of 3 again,
/// whatever its value was beforehand.
pub proof fn lemma_round_reset_restores_ap(g: GameView)
    requires
        wf_game(g),
        g.end_turn_intents.len() >= 1,
        complete_turn_spec(g.order, g.rounds).2,
    ensures
        forall|j: int|
            0 <= j < g.order.len() ==> actor_of(
                end_turn_step(g).actors,
                (#[trigger] g.order[j]).0,
            ).action_points == Some(ActionPoints(3)),
{
    let step = complete_turn_spec(g.order, g.rounds);
    let ids = order_ids(step.0);
    lemma_complete_turn_preserves_ids(g.order, g.rounds);
    lemma_reset_ap_elementwise(g.actors, ids);
    let t = reset_ap(g.actors, ids);
    assert forall|j: int|
        0 <= j < g.order.len() implies actor_of(t, (#[trigger] g.order[j]).0).action_points
        == Some(ActionPoints(3)) by {
        let id = g.order[j].0;
        assert(has_actor(g.actors, id));
        let i = idx_of(g.actors, id);
        assert(g.actors[i].id == id);
        assert(ids.contains(id)) by {
            assert(ids[j] == g.order[j].0);
        }
        assert(g.actors[i].action_points is Some) by {
            lemma_idx_of_unique(g.actors, i);
        }
        assert(t[i] == (Actor { action_points: Some(ActionPoints(3)), ..g.actors[i] }));
        assert(forall|l: int| 0 <= l < t.len() ==> (#[trigger] t[l]).id == g.actors[l].id);
        lemma_idx_of_unique(t, i);
    }
}

/// Game system that resolves requests to end the active character's turn.
/// The queue is emptied first; the presence of at least one intent then
/// drives exactly one turn completion, and a completed round restores the
/// action points of every combatant.
pub fn system(state: &mut GameState)
    requires
        old(state).wf(),
        old(state)@.rounds < i32::MAX,
    ensures
        final(state).wf(),
        final(state)@ == end_turn_step(old(state)@),
{
    let ghost g0 = state@;
    let is_moi = state.end_turn_intents.len() > 0;
    state.end_turn_intents.clear();
    if is_moi {
        state.debug_log.push(LogEvent::CompletingTurn);
        let round_has_completed = state.combat_encounter.complete_turn();
        let entities_in_combat = state.combat_encounter.get_all_entities();
        let ghost step = complete_turn_spec(g0.order, g0.rounds);
        proof {
            lemma_complete_turn_preserves_ids(g0.order, g0.rounds);
        }
        if round_has_completed {
            let ghost ids = entities_in_combat@;
            proof {
                lemma_reset_ap_elementwise(g0.actors, ids);
            }
            let mut k: usize = 0;
            while k < entities_in_combat.len()
                invariant
                    k <= ids.len(),
                    entities_in_combat@ == ids,
                    unique_ids(state@.actors),
                    state@ == (GameView {
                        end_turn_intents: Seq::empty(),
                        order: step.0,
                        rounds: step.1,
                        actors: reset_ap(g0.actors, ids.take(k as int)),
                        debug_log: g0.debug_log.push(LogEvent::CompletingTurn),
                        ..g0
                    }),
                decreases ids.len() - k,
            {
                let ghost s_cur = state@.actors;
                let id = entities_in_combat[k];
                match state.actors.find(id) {
                    Some(i) => {
                        let a = state.actors.at(i);
                        match a.action_points {
                            Some(_points) => {
                                let mut restored = a;
                                restored.action_points = Some(ActionPoints::new());
                                state.actors.set_at(i, restored);
                                proof {
                                    crate::combat_systems::movement::lemma_actor_update(
                                        s_cur,
                                        i as int,
                                        restored,
                                    );
                                }
                            },
                            None => {},
                        }
                    },
                    None => {},
                }
                proof {
                    assert(ids.take(k + 1).drop_last() =~= ids.take(k as int));
                    assert(ids.take(k + 1).last() == ids[k as int]);
                    assert(state@.actors =~= reset_ap(g0.actors, ids.take(k + 1)));
                }
                k = k + 1;
            }
            proof {
                assert(ids.take(ids.len() as int) =~= ids);
            }
        }
    }
    proof {
        assert(final(state)@ =~= end_turn_step(g0));
        lemma_end_turn_preserves_wf(g0);
    }
}

/// End-of-turn resolution preserves the context's well-formedness: the
/// initiative order keeps naming the same actors, and restoring an
/// action-point pool touches nothing a well-formedness clause depends on.
pub proof fn lemma_end_turn_preserves_wf(g: GameView)
    requires
        wf_game(g),
    ensures
        wf_game(end_turn_step(g)),
{
    if g.end_turn_intents.len() == 0 {
    } else {
        let step = complete_turn_spec(g.order, g.rounds);
        let ids = order_ids(step.0);
        lemma_complete_turn_preserves_ids(g.order, g.rounds);
        let t = end_turn_step(g).actors;
        if step.2 {
            lemma_reset_ap_elementwise(g.actors, ids);
        }
        assert(t.len() == g.actors.len());
        assert(forall|j: int| 0 <= j < t.len() ==> (#[trigger] t[j]).id == g.actors[j].id);
        assert(forall|j: int| 0 <= j < t.len() ==> (#[trigger] t[j]).pos == g.actors[j].pos);
        assert(forall|j: int|
            0 <= j < t.len() ==> ((#[trigger] t[j]).action_points is Some) == (
            g.actors[j].action_points is Some));
        assert(forall|j: int|
            0 <= j < t.len() ==> (#[trigger] t[j]).movement_points == g.actors[j].movement_points);
        assert(unique_ids(t));
        assert(!all_acted(step.0)) by {
            if step.2 {
                assert(step.0[0] == (mark_first(g.order)[0].0, false));
                assert(!step.0[0].1);
            }
        }
        assert forall|j: int| 0 <= j < step.0.len() implies {
            let id = (#[trigger] step.0[j]).0;
            &&& has_actor(t, id)
            &&& actor_of(t, id).action_points is Some
            &&& actor_of(t, id).movement_points is Some
        } by {
            let id = step.0[j].0;
            assert(order_ids(step.0)[j] == id);
            assert(order_ids(g.order)[j] == g.order[j].0);
            assert(g.order[j].0 == id);
            assert(has_actor(g.actors, id));
            let i = idx_of(g.actors, id);
            assert(g.actors[i].id == id);
            assert(t[i].id == id);
            assert(has_actor(t, id));
            lemma_idx_of_unique(g.actors, i);
            lemma_idx_of_unique(t, i);
        }
    }
}

} // verus!

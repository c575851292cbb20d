//! Helper functions shared by the game systems.

use vstd::prelude::*;
use crate::actors::Actor;
use crate::actors::actor_of;
use crate::actors::has_actor;
use crate::actors::idx_of;
use crate::combat_systems::movement::lemma_actor_update;
use crate::components::ActorId;
use crate::components::MovementPoints;
use crate::gamestate::GameState;
use crate::gamestate::GameView;

verus! {

/// The actor table with the movement points of one actor restored to their
/// maximum; an absent actor, or one without a pool, leaves the table as it
/// was.
pub open spec fn refresh_mp_spec(s: Seq<Actor>, id: ActorId) -> Seq<Actor> {
    if has_actor(s, id) {
        let a = actor_of(s, id);
        match a.movement_points {
            Some(mp) => s.update(
                idx_of(s, id),
                Actor { movement_points: Some(MovementPoints { max: mp.max, current: mp.max }), ..a },
            ),
            None => s,
        }
    } else {
        s
    }
}

/// Resets the movement points of an actor so it can move again, done when
/// the actor leaves its movement phase.
pub fn refresh_mp(state: &mut GameState, active_entity: ActorId)
    requires
        old(state).wf(),
    ensures
        final(state).wf(),
        final(state)@ == (GameView {
            actors: refresh_mp_spec(old(state)@.actors, active_entity),
            ..old(state)@
        }),
{
    let ghost g0 = state@;
    let ghost s0 = state@.actors;
    match state.actors.find(active_entity) {
        Some(i) => {
            let a = state.actors.at(i);
            match a.movement_points {
                Some(mut mp) => {
                    mp.reset();
                    let mut refreshed = a;
                    refreshed.movement_points = Some(mp);
                    state.actors.set_at(i, refreshed);
                    proof {
                        lemma_actor_update(s0, i as int, refreshed);
                        assert(state@ =~= (GameView {
                            actors: refresh_mp_spec(s0, active_entity),
                            ..g0
                        }));
                    }
                },
                None => {},
            }
        },
        None => {},
    }
}

} // verus!

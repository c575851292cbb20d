//! The turn-control state machine: translates one abstract command into
//! intents and state transitions for the active character. Transitions
//! depend only on the control state and the command; a command with no
//! transition listed for the current state is ignored.

use vstd::prelude::*;
use crate::actors::Actor;
use crate::actors::actor_of;
use crate::actors::has_actor;
use crate::actors::idx_of;
use crate::combat_action_type::CombatActionType;
use crate::combat_action_type::Command;
use crate::combat_action_type::Direction;
use crate::combat_systems::movement::lemma_actor_update;
use crate::components::ActionPoints;
use crate::components::ActorId;
use crate::components::Position;
use crate::components::first_unacted;
use crate::components::lemma_next_turn_is_first_unacted;
use crate::components::next_turn_spec;
use crate::gamestate::GameState;
use crate::gamestate::GameView;
use crate::gamestate::LogEvent;
use crate::moi::MOIEndTurn;
use crate::moi::MOIWantsToMove;
use crate::systems::refresh_mp;
use crate::systems::refresh_mp_spec;

verus! {

/// The actor whose turn it is. Meaningful whenever someone is still to act,
/// as well-formedness guarantees.
pub open spec fn active_id(g: GameView) -> ActorId {
    match next_turn_spec(g.order) {
        Some(id) => id,
        None => 0,
    }
}

/// Starting to move costs a minor action: with a point to spend, the pool
/// shrinks by one, the decision is reported, and the machine enters
/// `Moving`; without one, the failure is reported and the state stays.
pub open spec fn start_move_step(g: GameView) -> GameView {
    if has_actor(g.actors, active_id(g)) {
        let a = actor_of(g.actors, active_id(g));
        match a.action_points {
            Some(ap) => if ap.0 >= 1 {
                GameView {
                    actors: g.actors.update(
                        idx_of(g.actors, active_id(g)),
                        Actor { action_points: Some(ActionPoints((ap.0 - 1) as i32)), ..a },
                    ),
                    game_log: g.game_log.push(LogEvent::DecidedToMove((ap.0 - 1) as i32)),
                    control_state: CombatActionType::Moving,
                    ..g
                }
            } else {
                GameView {
                    debug_log: g.debug_log.push(LogEvent::NotEnoughActionPoints(ap.0)),
                    ..g
                }
            },
            None => g,
        }
    } else {
        g
    }
}

/// A directional command while moving queues a movement intent one tile
/// from the active character's position, with collision checks on; the
/// machine stays in `Moving`.
pub open spec fn queue_move_step(g: GameView, dir: Direction) -> GameView {
    if has_actor(g.actors, active_id(g)) {
        let a = actor_of(g.actors, active_id(g));
        let d = dir.spec_delta();
        let dest = Position { x: (a.pos.x + d.0) as i32, y: (a.pos.y + d.1) as i32 };
        GameView {
            move_intents: g.move_intents.push(
                MOIWantsToMove { collision: true, entity: active_id(g), destination: dest },
            ),
            ..g
        }
    } else {
        g
    }
}

/// The turn-control state machine as a transition on the whole game
/// context, given the command the device layer read this tick, if any.
pub open spec fn input_step(g: GameView, command: Option<Command>) -> GameView {
    match command {
        None => g,
        Some(cmd) => match g.control_state {
            CombatActionType::Idle => match cmd {
                Command::StartMove => start_move_step(g),
                Command::ConfirmEndTurn => GameView {
                    control_state: CombatActionType::ConfirmingEndTurn,
                    ..g
                },
                Command::Quit => GameView { quitting: true, ..g },
                _ => g,
            },
            CombatActionType::Moving => match cmd {
                Command::Move(dir) => queue_move_step(g, dir),
                Command::Cancel => GameView {
                    actors: refresh_mp_spec(g.actors, active_id(g)),
                    control_state: CombatActionType::Idle,
                    ..g
                },
                _ => g,
            },
            CombatActionType::ConfirmingEndTurn => match cmd {
                Command::EndTurnYes => GameView {
                    end_turn_intents: g.end_turn_intents.push(MOIEndTurn),
                    control_state: CombatActionType::Idle,
                    ..g
                },
                Command::EndTurnNo => GameView { control_state: CombatActionType::Idle, ..g },
                _ => g,
            },
        },
    }
}

/// Game system that feeds one tick's command to the turn-control state
/// machine for the currently active character.
pub fn system(state: &mut GameState, command: Option<Command>)
    requires
        old(state).wf(),
    ensures
        final(state).wf(),
        final(state)@ == input_step(old(state)@, command),
{
    let ghost g0 = state@;
    // The encounter decides which character the commands steer.
    let active = state.combat_encounter.next_turn();
    proof {
        lemma_next_turn_is_first_unacted(g0.order);
    }
    let active_entity = active.unwrap();
    proof {
        match first_unacted(g0.order) {
            Some(i) => {
                assert(active_entity == g0.order[i].0);
                assert(has_actor(g0.actors, active_entity));
                assert(actor_of(g0.actors, active_entity).action_points is Some);
                assert(actor_of(g0.actors, active_entity).movement_points is Some);
            },
            None => {
                assert(false);
            },
        }
        assert(active_entity == active_id(g0));
    }
    let cmd = match command {
        Some(c) => c,
        None => {
            return ;
        },
    };
    match state.control_state {
        CombatActionType::Idle => {
            match cmd {
                Command::StartMove => {
                    match state.actors.find(active_entity) {
                        Some(i) => {
                            let a = state.actors.at(i);
                            match a.action_points {
                                Some(points) => {
                                    let mut ap = points;
                                    match ap.minor_action() {
                                        Ok(ap_left) => {
                                            let mut spender = a;
                                            spender.action_points = Some(ap);
                                            state.actors.set_at(i, spender);
                                            proof {
                                                lemma_actor_update(g0.actors, i as int, spender);
                                            }
                                            state.game_log.push(LogEvent::DecidedToMove(ap_left));
                                            state.control_state = CombatActionType::Moving;
                                        },
                                        Err(ap_left) => {
                                            state.debug_log.push(
                                                LogEvent::NotEnoughActionPoints(ap_left),
                                            );
                                        },
                                    }
                                },
                                None => {},
                            }
                        },
                        None => {},
                    }
                },
                Command::ConfirmEndTurn => {
                    state.control_state = CombatActionType::ConfirmingEndTurn;
                },
                Command::Quit => {
                    state.quitting = true;
                },
                _ => {},
            }
        },
        CombatActionType::Moving => {
            match cmd {
                Command::Move(direction) => {
                    match state.actors.find(active_entity) {
                        Some(i) => {
                            let a = state.actors.at(i);
                            let delta = direction.delta();
                            let destination = Position {
                                x: a.pos.x + delta.0,
                                y: a.pos.y + delta.1,
                            };
                            state.move_intents.push(
                                MOIWantsToMove::new(true, active_entity, destination),
                            );
                        },
                        None => {},
                    }
                },
                Command::Cancel => {
                    // Leaving the movement phase restores the character's
                    // movement points.
                    refresh_mp(state, active_entity);
                    state.control_state = CombatActionType::Idle;
                },
                _ => {},
            }
        },
        CombatActionType::ConfirmingEndTurn => {
            match cmd {
                Command::EndTurnYes => {
                    state.end_turn_intents.push(MOIEndTurn);
                    state.control_state = CombatActionType::Idle;
                },
                Command::EndTurnNo => {
                    state.control_state = CombatActionType::Idle;
                },
                _ => {},
            }
        },
    }
    proof {
        assert(state@ =~= input_step(g0, command));
    }
}

} // verus!

//! The per-tick combat pipeline. Within one tick the stages always run in
//! the same fixed order: input translation feeds the turn-control state
//! machine, the movement resolver drains its intents, then end-of-turn
//! resolution does the encounter's round bookkeeping and resource reset.
//! Each stage drains its queue fully; no intent carries over to the next
//! tick.

pub mod end_turn;
pub mod input;
pub mod logs;
pub mod movement;

use vstd::prelude::*;
use crate::combat_action_type::Command;
use crate::gamestate::GameState;
use crate::gamestate::GameView;

verus! {

/// One full simulation tick on the game context: the state machine, then
/// movement resolution, then end-of-turn resolution.
pub open spec fn tick(g: GameView, command: Option<Command>) -> GameView {
    end_turn::end_turn_step(movement::movement_step(input::input_step(g, command)))
}

/// Intents never outlive their tick: whatever the tick starts with and
/// whatever the state machine produces along the way, both intent queues
/// are fully drained by the time the tick ends.
pub proof fn lemma_tick_drains_intents(g: GameView, command: Option<Command>)
    ensures
        tick(g, command).move_intents.len() == 0,
        tick(g, command).end_turn_intents.len() == 0,
{
}

/// Runs all the combat systems for one tick, in their fixed order, on the
/// command the input device translated this tick, if any. Rendering and log
/// printing are the shell's business and happen after this returns.
pub fn run(state: &mut GameState, command: Option<Command>)
    requires
        old(state).wf(),
        old(state)@.rounds < i32::MAX,
    ensures
        final(state).wf(),
        final(state)@ == tick(old(state)@, command),
{
    let ghost g0 = state@;
    input::system(state, command);
    proof {
        assert(state@.rounds == g0.rounds);
    }
    movement::system(state);
    proof {
        assert(state@.rounds == g0.rounds);
    }
    end_turn::system(state);
}

} // verus!

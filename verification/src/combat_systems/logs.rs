//! Log drainage: hands the tick's accumulated log events to the shell and
//! empties both sinks, so each event is reported at most once. Turning the
//! events into text and printing them is the shell's business.

use vstd::prelude::*;
use crate::gamestate::GameState;
use crate::gamestate::GameView;
use crate::gamestate::LogEvent;

verus! {

/// Log drainage as a transition on the game context: both sinks emptied.
pub open spec fn logs_step(g: GameView) -> GameView {
    GameView { debug_log: Seq::empty(), game_log: Seq::empty(), ..g }
}

/// Game system that drains both log sinks, returning the debug events and
/// the player-facing events accumulated since the last drain, in order.
pub fn system(state: &mut GameState) -> (r: (Vec<LogEvent>, Vec<LogEvent>))
    requires
        old(state).wf(),
    ensures
        final(state).wf(),
        final(state)@ == logs_step(old(state)@),
        r.0@ == old(state)@.debug_log,
        r.1@ == old(state)@.game_log,
{
    let mut debug_out: Vec<LogEvent> = Vec::new();
    let mut k: usize = 0;
    while k < state.debug_log.len()
        invariant
            k <= state.debug_log@.len(),
            debug_out@ == state.debug_log@.take(k as int),
            state == old(state),
        decreases state.debug_log@.len() - k,
    {
        debug_out.push(state.debug_log[k]);
        proof {
            assert(state.debug_log@.take(k + 1) =~= state.debug_log@.take(k as int).push(
                state.debug_log@[k as int],
            ));
        }
        k = k + 1;
    }
    let mut game_out: Vec<LogEvent> = Vec::new();
    let mut k: usize = 0;
    while k < state.game_log.len()
        invariant
            k <= state.game_log@.len(),
            game_out@ == state.game_log@.take(k as int),
            state == old(state),
        decreases state.game_log@.len() - k,
    {
        game_out.push(state.game_log[k]);
        proof {
            assert(state.game_log@.take(k + 1) =~= state.game_log@.take(k as int).push(
                state.game_log@[k as int],
            ));
        }
        k = k + 1;
    }
    proof {
        assert(debug_out@ =~= old(state)@.debug_log);
        assert(game_out@ =~= old(state)@.game_log);
    }
    state.debug_log.clear();
    state.game_log.clear();
    proof {
        assert(state@ =~= logs_step(old(state)@));
    }
    (debug_out, game_out)
}

} // verus!

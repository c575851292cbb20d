//! The shared game context threaded through every tick: the actor table,
//! the map, the combat encounter, the control state, the intent queues and
//! the log sinks. One `GameView` value abstracts the whole context, so each
//! pipeline stage can state exactly how it transforms the world.

use vstd::prelude::*;
use crate::actors::Actor;
use crate::actors::ActorTable;
use crate::actors::actor_of;
use crate::actors::has_actor;
use crate::actors::unique_ids;
use crate::combat_action_type::CombatActionType;
use crate::components::CombatEncounter;
use crate::components::all_acted;
use crate::game_map::GameMap;
use crate::moi::MOIEndTurn;
use crate::moi::MOIReload;
use crate::moi::MOIWantsToMove;

verus! {

/// Whose turn the hotseat session is on.
#[derive(Copy, Clone, PartialEq, Eq, Structural, Debug)]
pub enum TurnState {
    PlayerOne,
    PlayerTwo,
}

/// An event other game systems may react to.
#[derive(Copy, Clone, PartialEq, Eq, Structural, Debug)]
pub enum GameEvent {
    EntityMoved,
}

/// One reported event, destined for the debug or the player-facing log.
/// The shell renders these as text; the core only records what happened.
#[derive(Copy, Clone, PartialEq, Eq, Structural, Debug)]
pub enum LogEvent {
    /// The active character spent a minor action to start moving; carries
    /// the action points left.
    DecidedToMove(i32),
    /// The active character wanted to start moving but lacked the action
    /// points; carries the points it has.
    NotEnoughActionPoints(i32),
    /// A mover had a movement-point pool with nothing left in it.
    OutOfMovementPoints,
    /// A move was applied; carries the movement points remaining.
    MovementPointsRemaining(i32),
    /// An end-of-turn signal is being resolved.
    CompletingTurn,
}

/// Mathematical image of a whole `GameState`.
#[verifier::ext_equal]
pub struct GameView {
    pub actors: Seq<Actor>,
    pub map: GameMap,
    pub order: Seq<(u64, bool)>,
    pub rounds: int,
    pub turn_state: TurnState,
    pub control_state: CombatActionType,
    pub game_log: Seq<LogEvent>,
    pub debug_log: Seq<LogEvent>,
    pub number_turns: int,
    pub quitting: bool,
    pub event_queue: Seq<GameEvent>,
    pub move_intents: Seq<MOIWantsToMove>,
    pub end_turn_intents: Seq<MOIEndTurn>,
    pub reload_intents: Seq<MOIReload>,
}

/// The whole game context for one combat scene.
pub struct GameState {
    /// The registry of every entity in the scene.
    pub actors: ActorTable,
    /// The tile map the combat plays out on.
    pub map: GameMap,
    /// The encounter sequencing the actors through their turns.
    pub combat_encounter: CombatEncounter,
    /// Whose turn the hotseat session is on.
    pub turn_state: TurnState,
    /// The control state gating what commands mean.
    pub control_state: CombatActionType,
    /// Player-facing log events not yet drained by the shell.
    pub game_log: Vec<LogEvent>,
    /// Engine debug log events not yet drained by the shell.
    pub debug_log: Vec<LogEvent>,
    /// How many turns have been taken overall.
    pub number_turns: i32,
    /// Set when the player asked to quit the program.
    pub quitting: bool,
    /// Events queued for other game systems.
    pub event_queue: Vec<GameEvent>,
    /// Movement intents queued this tick, drained by the movement resolver.
    pub move_intents: Vec<MOIWantsToMove>,
    /// End-of-turn intents queued this tick, drained at encounter level.
    pub end_turn_intents: Vec<MOIEndTurn>,
    /// Reload intents; a reserved extension point with no resolver yet.
    pub reload_intents: Vec<MOIReload>,
}

impl View for GameState {
    type V = GameView;

    open spec fn view(&self) -> GameView {
        GameView {
            actors: self.actors@,
            map: self.map,
            order: self.combat_encounter.initiative_order@,
            rounds: self.combat_encounter.num_rounds as int,
            turn_state: self.turn_state,
            control_state: self.control_state,
            game_log: self.game_log@,
            debug_log: self.debug_log@,
            number_turns: self.number_turns as int,
            quitting: self.quitting,
            event_queue: self.event_queue@,
            move_intents: self.move_intents@,
            end_turn_intents: self.end_turn_intents@,
            reload_intents: self.reload_intents@,
        }
    }
}

/// Well-formedness of the game context: identifiers are unique, the map is
/// a proper grid, the encounter is non-empty with someone still to act,
/// every combatant of the encounter exists and carries both resource pools,
/// and every actor stands on the map.
pub open spec fn wf_game(g: GameView) -> bool {
    &&& unique_ids(g.actors)
    &&& g.map.wf()
    &&& g.order.len() > 0
    &&& !all_acted(g.order)
    &&& (forall|j: int|
        0 <= j < g.order.len() ==> {
            let id = (#[trigger] g.order[j]).0;
            &&& has_actor(g.actors, id)
            &&& actor_of(g.actors, id).action_points is Some
            &&& actor_of(g.actors, id).movement_points is Some
        })
    &&& (forall|i: int|
        0 <= i < g.actors.len() ==> g.map.spec_in_bounds((#[trigger] g.actors[i]).pos))
}

impl GameState {
    /// The context is well formed; every pipeline stage preserves this.
    pub open spec fn wf(&self) -> bool {
        wf_game(self@)
    }
}

} // verus!

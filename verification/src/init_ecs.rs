//! Scene setup: builds the actor table, map and encounter for a basic
//! two-character fight. Later this can take an identifier deciding which
//! scene to launch.

use vstd::prelude::*;
use crate::actors::Actor;
use crate::actors::ActorTable;
use crate::combat_action_type::CombatActionType;
use crate::components::ActionPoints;
use crate::components::CombatEncounter;
use crate::components::ControlType;
use crate::components::MovementPoints;
use crate::components::Position;
use crate::game_map::GameMap;
use crate::game_map::MAP_HEIGHT;
use crate::game_map::MAP_WIDTH;
use crate::gamestate::GameState;
use crate::gamestate::TurnState;

verus! {

/// Builds the demo combat scene: a player character at the origin and an
/// opponent at (20, 20), each collidable with full action and movement
/// budgets, sequenced by a fresh two-entry encounter on an open map.
pub fn init_ecs() -> (r: GameState)
    ensures
        r.wf(),
        r@.actors.len() == 2,
        r@.actors[0] == (Actor {
            id: 0,
            pos: Position { x: 0, y: 0 },
            action_points: Some(ActionPoints(3)),
            movement_points: Some(MovementPoints { max: 3, current: 3 }),
            collidable: true,
            control: Some(ControlType::PC),
        }),
        r@.actors[1] == (Actor {
            id: 1,
            pos: Position { x: 20, y: 20 },
            action_points: Some(ActionPoints(3)),
            movement_points: Some(MovementPoints { max: 3, current: 3 }),
            collidable: true,
            control: Some(ControlType::NPC),
        }),
        r@.order == seq![(0u64, false), (1u64, false)],
        r@.rounds == 0,
        r@.control_state == CombatActionType::Idle,
        r@.turn_state == TurnState::PlayerOne,
        !r@.quitting,
        r@.number_turns == 0,
        r@.game_log.len() == 0,
        r@.debug_log.len() == 0,
        r@.event_queue.len() == 0,
        r@.move_intents.len() == 0,
        r@.end_turn_intents.len() == 0,
        r@.reload_intents.len() == 0,
        r@.map.width == MAP_WIDTH,
        r@.map.height == MAP_HEIGHT,
        (forall|p: Position| r@.map.spec_in_bounds(p) ==> r@.map.spec_can_enter_tile(p)),
{
    let mut actors = ActorTable::new();
    let pc_01 = Actor {
        id: 0,
        pos: Position { x: 0, y: 0 },
        action_points: Some(ActionPoints::new()),
        movement_points: Some(MovementPoints::default()),
        collidable: true,
        control: Some(ControlType::PC),
    };
    actors.spawn(pc_01);
    let npc_01 = Actor {
        id: 1,
        pos: Position { x: 20, y: 20 },
        action_points: Some(ActionPoints::new()),
        movement_points: Some(MovementPoints::default()),
        collidable: true,
        control: Some(ControlType::NPC),
    };
    actors.spawn(npc_01);
    let mut combatants: Vec<u64> = Vec::new();
    combatants.push(0);
    combatants.push(1);
    let combat_encounter = CombatEncounter::new(combatants);
    let r = GameState {
        actors,
        map: GameMap::new(),
        combat_encounter,
        turn_state: TurnState::PlayerOne,
        control_state: CombatActionType::Idle,
        game_log: Vec::new(),
        debug_log: Vec::new(),
        number_turns: 0,
        quitting: false,
        event_queue: Vec::new(),
        move_intents: Vec::new(),
        end_turn_intents: Vec::new(),
        reload_intents: Vec::new(),
    };
    proof {
        assert(r@.order =~= seq![(0u64, false), (1u64, false)]);
        assert(r@.actors[0].id == 0 && r@.actors[1].id == 1);
    }
    r
}

} // verus!

use combat_sandbox::actors::Actor;
use combat_sandbox::actors::ActorTable;
use combat_sandbox::combat_action_type::CombatActionType;
use combat_sandbox::combat_systems::logs;
use combat_sandbox::components::ActionPoints;
use combat_sandbox::components::ControlType;
use combat_sandbox::components::GameLogMessage;
use combat_sandbox::components::MovementPoints;
use combat_sandbox::components::Position;
use combat_sandbox::components::Renderable;
use combat_sandbox::game_map::GameMap;
use combat_sandbox::game_map::TileType;
use combat_sandbox::gamestate::LogEvent;
use combat_sandbox::init_ecs::init_ecs;
use combat_sandbox::moi::MOIReload;
use combat_sandbox::moi::MOIWantsToMove;

#[test]
fn the_default_map_is_open_and_bounded() {
    let map = GameMap::new();
    assert!(map.in_bounds(Position { x: 0, y: 0 }));
    assert!(map.in_bounds(Position { x: 44, y: 31 }));
    assert!(!map.in_bounds(Position { x: 45, y: 31 }));
    assert!(!map.in_bounds(Position { x: -1, y: 0 }));
    assert!(map.can_enter_tile(Position { x: 10, y: 10 }));
    assert!(!map.can_enter_tile(Position { x: 0, y: 32 }));
}

#[test]
fn walls_are_in_bounds_but_not_enterable() {
    let mut map = GameMap::sized(4, 3);
    map.set_tile(Position { x: 2, y: 1 }, TileType::Wall);
    assert!(map.in_bounds(Position { x: 2, y: 1 }));
    assert!(!map.can_enter_tile(Position { x: 2, y: 1 }));
    assert!(map.can_enter_tile(Position { x: 1, y: 1 }));
}

#[test]
fn the_actor_table_finds_rows_by_identifier() {
    let mut table = ActorTable::new();
    table.spawn(Actor {
        id: 5,
        pos: Position { x: 1, y: 2 },
        action_points: Some(ActionPoints::new()),
        movement_points: Some(MovementPoints::default()),
        collidable: true,
        control: Some(ControlType::PC),
    });
    assert_eq!(table.len(), 1);
    assert_eq!(table.find(5), Some(0));
    assert_eq!(table.find(6), None);
    assert_eq!(table.get(5).unwrap().pos, Position { x: 1, y: 2 });
    assert!(table.get(6).is_none());
}

#[test]
fn the_demo_scene_is_a_two_character_fight() {
    let state = init_ecs();
    assert_eq!(state.actors.len(), 2);
    let pc = state.actors.get(0).unwrap();
    let npc = state.actors.get(1).unwrap();
    assert_eq!(pc.pos, Position { x: 0, y: 0 });
    assert_eq!(pc.control, Some(ControlType::PC));
    assert_eq!(npc.pos, Position { x: 20, y: 20 });
    assert_eq!(npc.control, Some(ControlType::NPC));
    assert!(pc.collidable && npc.collidable);
    assert_eq!(state.combat_encounter.get_all_entities(), vec![0, 1]);
    assert_eq!(state.combat_encounter.num_rounds, 0);
    assert_eq!(state.control_state, CombatActionType::Idle);
    assert!(!state.quitting);
}

#[test]
fn draining_the_logs_empties_both_sinks() {
    let mut state = init_ecs();
    state.debug_log.push(LogEvent::CompletingTurn);
    state.game_log.push(LogEvent::MovementPointsRemaining(2));
    state.game_log.push(LogEvent::OutOfMovementPoints);
    let (debug_events, game_events) = logs::system(&mut state);
    assert_eq!(debug_events, vec![LogEvent::CompletingTurn]);
    assert_eq!(
        game_events,
        vec![
            LogEvent::MovementPointsRemaining(2),
            LogEvent::OutOfMovementPoints,
        ]
    );
    assert!(state.debug_log.is_empty());
    assert!(state.game_log.is_empty());
    let (debug_again, game_again) = logs::system(&mut state);
    assert!(debug_again.is_empty() && game_again.is_empty());
}

#[test]
fn intent_records_hand_back_what_they_were_built_from() {
    let moi = MOIWantsToMove::new(true, 7, Position { x: 3, y: 4 });
    assert_eq!(moi.get(), (true, 7, Position { x: 3, y: 4 }));
    let reload = MOIReload::new(9);
    assert_eq!(reload.entity(), 9);
}

#[test]
fn renderable_and_log_messages_carry_their_text() {
    let sprite = Renderable::new(String::from("character"));
    assert_eq!(sprite.get_sprite(), "character");
    let line = GameLogMessage::new(String::from("a hit!"));
    assert_eq!(line.0, "a hit!");
}

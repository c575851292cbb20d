use combat_sandbox::actors::Actor;
use combat_sandbox::combat_systems::movement;
use combat_sandbox::components::MovementPoints;
use combat_sandbox::components::Position;
use combat_sandbox::game_map::TileType;
use combat_sandbox::gamestate::GameState;
use combat_sandbox::gamestate::LogEvent;
use combat_sandbox::init_ecs::init_ecs;
use combat_sandbox::moi::MOIWantsToMove;

fn pos(x: i32, y: i32) -> Position {
    Position { x, y }
}

#[test]
fn open_destination_moves_and_spends_one_point() {
    let mut state = init_ecs();
    state.move_intents.push(MOIWantsToMove::new(true, 0, pos(1, 0)));
    movement::system(&mut state);
    let mover = state.actors.get(0).unwrap();
    assert_eq!(mover.pos, pos(1, 0));
    assert_eq!(mover.movement_points, Some(MovementPoints { max: 3, current: 2 }));
    assert_eq!(state.game_log, vec![LogEvent::MovementPointsRemaining(2)]);
    assert!(state.move_intents.is_empty());
}

#[test]
fn occupied_destination_blocks_a_collidable_mover() {
    let mut state = init_ecs();
    // Stand the other collidable actor on the destination.
    state.actors.entries[1].pos = pos(1, 0);
    state.move_intents.push(MOIWantsToMove::new(true, 0, pos(1, 0)));
    movement::system(&mut state);
    let mover = state.actors.get(0).unwrap();
    assert_eq!(mover.pos, pos(0, 0));
    assert_eq!(mover.movement_points, Some(MovementPoints { max: 3, current: 3 }));
    // No status report of success was emitted.
    assert_eq!(state.game_log, Vec::new());
}

#[test]
fn collision_free_mover_ignores_walkability() {
    let mut state = init_ecs();
    state.map.set_tile(pos(5, 5), TileType::Wall);
    // A cursor-like actor: no movement points, no collision.
    state.actors.spawn(Actor {
        id: 2,
        pos: pos(4, 5),
        action_points: None,
        movement_points: None,
        collidable: false,
        control: None,
    });
    state.move_intents.push(MOIWantsToMove::new(false, 2, pos(5, 5)));
    movement::system(&mut state);
    assert_eq!(state.actors.get(2).unwrap().pos, pos(5, 5));
    assert_eq!(state.game_log, Vec::new());
}

#[test]
fn wall_blocks_a_collidable_mover() {
    let mut state = init_ecs();
    state.map.set_tile(pos(1, 0), TileType::Wall);
    state.move_intents.push(MOIWantsToMove::new(true, 0, pos(1, 0)));
    movement::system(&mut state);
    assert_eq!(state.actors.get(0).unwrap().pos, pos(0, 0));
    assert_eq!(state.game_log, Vec::new());
}

#[test]
fn out_of_bounds_destination_is_rejected_for_both_kinds() {
    let mut state = init_ecs();
    state.move_intents.push(MOIWantsToMove::new(true, 0, pos(-1, 0)));
    state.move_intents.push(MOIWantsToMove::new(false, 1, pos(0, -1)));
    movement::system(&mut state);
    assert_eq!(state.actors.get(0).unwrap().pos, pos(0, 0));
    assert_eq!(state.actors.get(1).unwrap().pos, pos(20, 20));
}

#[test]
fn exhausted_budget_reports_and_does_not_move() {
    let mut state = init_ecs();
    state.actors.entries[0].movement_points = Some(MovementPoints { max: 3, current: 0 });
    state.move_intents.push(MOIWantsToMove::new(true, 0, pos(1, 0)));
    movement::system(&mut state);
    let mover = state.actors.get(0).unwrap();
    assert_eq!(mover.pos, pos(0, 0));
    assert_eq!(mover.movement_points, Some(MovementPoints { max: 3, current: 0 }));
    assert_eq!(state.game_log, vec![LogEvent::OutOfMovementPoints]);
}

#[test]
fn intent_for_a_vanished_actor_is_dropped_silently() {
    let mut state = init_ecs();
    state.move_intents.push(MOIWantsToMove::new(true, 99, pos(1, 0)));
    movement::system(&mut state);
    assert_eq!(state.actors.get(0).unwrap().pos, pos(0, 0));
    assert_eq!(state.actors.get(1).unwrap().pos, pos(20, 20));
    assert_eq!(state.game_log, Vec::new());
    assert!(state.move_intents.is_empty());
}

#[test]
fn intents_resolve_in_queue_order_against_the_current_world() {
    let mut state = init_ecs();
    // Two steps for the same actor in one tick: the second starts from
    // where the first ended.
    state.move_intents.push(MOIWantsToMove::new(true, 0, pos(1, 0)));
    state.move_intents.push(MOIWantsToMove::new(true, 0, pos(2, 0)));
    movement::system(&mut state);
    let mover = state.actors.get(0).unwrap();
    assert_eq!(mover.pos, pos(2, 0));
    assert_eq!(mover.movement_points, Some(MovementPoints { max: 3, current: 1 }));
    assert_eq!(
        state.game_log,
        vec![
            LogEvent::MovementPointsRemaining(2),
            LogEvent::MovementPointsRemaining(1),
        ]
    );
}

#[test]
fn rejected_step_does_not_charge_the_budget_after_an_accepted_one() {
    let mut state = init_ecs();
    state.map.set_tile(pos(2, 0), TileType::Wall);
    state.move_intents.push(MOIWantsToMove::new(true, 0, pos(1, 0)));
    state.move_intents.push(MOIWantsToMove::new(true, 0, pos(2, 0)));
    movement::system(&mut state);
    let mover = state.actors.get(0).unwrap();
    assert_eq!(mover.pos, pos(1, 0));
    assert_eq!(mover.movement_points, Some(MovementPoints { max: 3, current: 2 }));
    assert_eq!(state.game_log, vec![LogEvent::MovementPointsRemaining(2)]);
}

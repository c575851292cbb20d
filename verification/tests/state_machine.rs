use combat_sandbox::combat_action_type::CombatActionType;
use combat_sandbox::combat_action_type::Command;
use combat_sandbox::combat_action_type::Direction;
use combat_sandbox::combat_systems::input;
use combat_sandbox::components::ActionPoints;
use combat_sandbox::components::MovementPoints;
use combat_sandbox::components::Position;
use combat_sandbox::gamestate::LogEvent;
use combat_sandbox::init_ecs::init_ecs;
use combat_sandbox::moi::MOIWantsToMove;

#[test]
fn start_move_spends_a_minor_action_and_enters_moving() {
    let mut state = init_ecs();
    input::system(&mut state, Some(Command::StartMove));
    assert_eq!(state.control_state, CombatActionType::Moving);
    assert_eq!(state.actors.get(0).unwrap().action_points, Some(ActionPoints(2)));
    assert_eq!(state.game_log, vec![LogEvent::DecidedToMove(2)]);
}

#[test]
fn start_move_without_action_points_reports_and_stays_idle() {
    let mut state = init_ecs();
    state.actors.entries[0].action_points = Some(ActionPoints(0));
    input::system(&mut state, Some(Command::StartMove));
    assert_eq!(state.control_state, CombatActionType::Idle);
    assert_eq!(state.actors.get(0).unwrap().action_points, Some(ActionPoints(0)));
    assert_eq!(state.debug_log, vec![LogEvent::NotEnoughActionPoints(0)]);
    assert_eq!(state.game_log, Vec::new());
}

#[test]
fn directional_command_while_moving_queues_an_intent() {
    let mut state = init_ecs();
    state.control_state = CombatActionType::Moving;
    input::system(&mut state, Some(Command::Move(Direction::East)));
    assert_eq!(state.control_state, CombatActionType::Moving);
    assert_eq!(
        state.move_intents,
        vec![MOIWantsToMove::new(true, 0, Position { x: 1, y: 0 })]
    );
}

#[test]
fn each_direction_steps_one_tile() {
    let cases = [
        (Direction::North, (5, 4)),
        (Direction::South, (5, 6)),
        (Direction::East, (6, 5)),
        (Direction::West, (4, 5)),
        (Direction::NorthEast, (6, 4)),
        (Direction::NorthWest, (4, 4)),
        (Direction::SouthEast, (6, 6)),
        (Direction::SouthWest, (4, 6)),
    ];
    for (direction, (x, y)) in cases {
        let mut state = init_ecs();
        state.actors.entries[0].pos = Position { x: 5, y: 5 };
        state.control_state = CombatActionType::Moving;
        input::system(&mut state, Some(Command::Move(direction)));
        assert_eq!(state.move_intents[0].destination, Position { x, y });
    }
}

#[test]
fn cancel_restores_movement_points_and_returns_to_idle() {
    let mut state = init_ecs();
    state.control_state = CombatActionType::Moving;
    state.actors.entries[0].movement_points = Some(MovementPoints { max: 3, current: 1 });
    input::system(&mut state, Some(Command::Cancel));
    assert_eq!(state.control_state, CombatActionType::Idle);
    assert_eq!(
        state.actors.get(0).unwrap().movement_points,
        Some(MovementPoints { max: 3, current: 3 })
    );
}

#[test]
fn confirm_end_turn_asks_for_confirmation() {
    let mut state = init_ecs();
    input::system(&mut state, Some(Command::ConfirmEndTurn));
    assert_eq!(state.control_state, CombatActionType::ConfirmingEndTurn);
    assert!(state.end_turn_intents.is_empty());
}

#[test]
fn answering_yes_queues_the_end_turn_intent() {
    let mut state = init_ecs();
    state.control_state = CombatActionType::ConfirmingEndTurn;
    input::system(&mut state, Some(Command::EndTurnYes));
    assert_eq!(state.control_state, CombatActionType::Idle);
    assert_eq!(state.end_turn_intents.len(), 1);
}

#[test]
fn answering_no_queues_nothing() {
    let mut state = init_ecs();
    state.control_state = CombatActionType::ConfirmingEndTurn;
    input::system(&mut state, Some(Command::EndTurnNo));
    assert_eq!(state.control_state, CombatActionType::Idle);
    assert!(state.end_turn_intents.is_empty());
}

#[test]
fn quit_sets_the_process_level_flag() {
    let mut state = init_ecs();
    input::system(&mut state, Some(Command::Quit));
    assert!(state.quitting);
    assert_eq!(state.control_state, CombatActionType::Idle);
}

#[test]
fn unlisted_commands_are_ignored() {
    let mut state = init_ecs();
    // A directional command means nothing while idle.
    input::system(&mut state, Some(Command::Move(Direction::East)));
    assert_eq!(state.control_state, CombatActionType::Idle);
    assert!(state.move_intents.is_empty());
    // Quit means nothing while moving.
    state.control_state = CombatActionType::Moving;
    input::system(&mut state, Some(Command::Quit));
    assert!(!state.quitting);
    // Start-move means nothing while confirming.
    state.control_state = CombatActionType::ConfirmingEndTurn;
    input::system(&mut state, Some(Command::StartMove));
    assert_eq!(state.control_state, CombatActionType::ConfirmingEndTurn);
    assert_eq!(state.actors.get(0).unwrap().action_points, Some(ActionPoints(3)));
}

#[test]
fn a_tick_without_a_command_changes_nothing() {
    let mut state = init_ecs();
    input::system(&mut state, None);
    assert_eq!(state.control_state, CombatActionType::Idle);
    assert_eq!(state.actors.get(0).unwrap().action_points, Some(ActionPoints(3)));
    assert!(state.move_intents.is_empty());
}

use combat_sandbox::combat_action_type::Command;
use combat_sandbox::combat_action_type::Direction;
use combat_sandbox::combat_systems::run;
use combat_sandbox::components::ActionPoints;
use combat_sandbox::components::MovementPoints;
use combat_sandbox::components::Position;
use combat_sandbox::init_ecs::init_ecs;

/// A full exchange: the first character spends an action to move, steps
/// east twice, then ends its turn; the second immediately ends its own,
/// completing the round.
#[test]
fn two_character_round_trip() {
    let mut state = init_ecs();

    // Character 0 starts moving: one action point spent.
    run(&mut state, Some(Command::StartMove));
    assert_eq!(state.actors.get(0).unwrap().action_points, Some(ActionPoints(2)));

    // Two steps east, resolved within their own ticks: movement points
    // 3 -> 2 -> 1.
    run(&mut state, Some(Command::Move(Direction::East)));
    assert_eq!(state.actors.get(0).unwrap().pos, Position { x: 1, y: 0 });
    assert_eq!(
        state.actors.get(0).unwrap().movement_points,
        Some(MovementPoints { max: 3, current: 2 })
    );
    run(&mut state, Some(Command::Move(Direction::East)));
    assert_eq!(state.actors.get(0).unwrap().pos, Position { x: 2, y: 0 });
    assert_eq!(
        state.actors.get(0).unwrap().movement_points,
        Some(MovementPoints { max: 3, current: 1 })
    );

    // Leaving the movement phase restores the mover's budget.
    run(&mut state, Some(Command::Cancel));
    assert_eq!(
        state.actors.get(0).unwrap().movement_points,
        Some(MovementPoints { max: 3, current: 3 })
    );

    // Character 0 confirms the end of its turn: the round is still open,
    // action points untouched, and character 1 is up.
    run(&mut state, Some(Command::ConfirmEndTurn));
    run(&mut state, Some(Command::EndTurnYes));
    assert_eq!(state.combat_encounter.num_rounds, 0);
    assert_eq!(state.actors.get(0).unwrap().action_points, Some(ActionPoints(2)));
    assert_eq!(state.combat_encounter.next_turn(), Some(1));

    // Character 1 immediately ends its turn: the round completes, the
    // counter ticks, everyone is unacted again and action points are
    // restored; movement points are untouched by round completion.
    run(&mut state, Some(Command::ConfirmEndTurn));
    run(&mut state, Some(Command::EndTurnYes));
    assert_eq!(state.combat_encounter.num_rounds, 1);
    assert_eq!(state.combat_encounter.next_turn(), Some(0));
    assert_eq!(state.actors.get(0).unwrap().action_points, Some(ActionPoints(3)));
    assert_eq!(state.actors.get(1).unwrap().action_points, Some(ActionPoints(3)));
    assert_eq!(
        state.actors.get(1).unwrap().movement_points,
        Some(MovementPoints { max: 3, current: 3 })
    );
}

/// An intent already queued still resolves in the tick that cancels the
/// movement phase: resolution runs after intent production within one tick.
#[test]
fn queued_step_resolves_before_cancellation_refresh_lands() {
    let mut state = init_ecs();
    run(&mut state, Some(Command::StartMove));
    run(&mut state, Some(Command::Move(Direction::South)));
    assert_eq!(state.actors.get(0).unwrap().pos, Position { x: 0, y: 1 });
    run(&mut state, Some(Command::Cancel));
    // The step stood; only the budget was refreshed afterwards.
    assert_eq!(state.actors.get(0).unwrap().pos, Position { x: 0, y: 1 });
    assert_eq!(
        state.actors.get(0).unwrap().movement_points,
        Some(MovementPoints { max: 3, current: 3 })
    );
}

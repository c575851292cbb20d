use combat_sandbox::combat_systems::end_turn;
use combat_sandbox::components::ActionPoints;
use combat_sandbox::gamestate::LogEvent;
use combat_sandbox::init_ecs::init_ecs;
use combat_sandbox::moi::MOIEndTurn;

#[test]
fn one_intent_completes_one_turn() {
    let mut state = init_ecs();
    state.end_turn_intents.push(MOIEndTurn);
    end_turn::system(&mut state);
    // The first actor has acted; the round is not over.
    assert_eq!(state.combat_encounter.next_turn(), Some(1));
    assert_eq!(state.combat_encounter.num_rounds, 0);
    assert!(state.end_turn_intents.is_empty());
    assert_eq!(state.debug_log, vec![LogEvent::CompletingTurn]);
}

#[test]
fn several_intents_in_one_tick_collapse_to_one_completion() {
    let mut state = init_ecs();
    state.end_turn_intents.push(MOIEndTurn);
    state.end_turn_intents.push(MOIEndTurn);
    end_turn::system(&mut state);
    // Exactly one turn was completed, not two: the second actor is still
    // to act and the round is still open.
    assert_eq!(state.combat_encounter.next_turn(), Some(1));
    assert_eq!(state.combat_encounter.num_rounds, 0);
    assert!(state.end_turn_intents.is_empty());
}

#[test]
fn no_intent_changes_nothing() {
    let mut state = init_ecs();
    end_turn::system(&mut state);
    assert_eq!(state.combat_encounter.next_turn(), Some(0));
    assert_eq!(state.combat_encounter.num_rounds, 0);
    assert_eq!(state.debug_log, Vec::new());
}

#[test]
fn round_completion_restores_every_combatants_action_points() {
    let mut state = init_ecs();
    // Spend down both pools to arbitrary values first.
    state.actors.entries[0].action_points = Some(ActionPoints(1));
    state.actors.entries[1].action_points = Some(ActionPoints(-2));
    state.end_turn_intents.push(MOIEndTurn);
    end_turn::system(&mut state);
    // First turn done: no reset yet.
    assert_eq!(state.actors.get(0).unwrap().action_points, Some(ActionPoints(1)));
    state.end_turn_intents.push(MOIEndTurn);
    end_turn::system(&mut state);
    // The round completed: the counter ticked and both pools are full
    // again, whatever they held before.
    assert_eq!(state.combat_encounter.num_rounds, 1);
    assert_eq!(state.actors.get(0).unwrap().action_points, Some(ActionPoints(3)));
    assert_eq!(state.actors.get(1).unwrap().action_points, Some(ActionPoints(3)));
    // The initiative order starts over.
    assert_eq!(state.combat_encounter.next_turn(), Some(0));
}

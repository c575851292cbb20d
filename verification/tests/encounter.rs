use combat_sandbox::components::CombatEncounter;

#[test]
fn next_turn_returns_the_first_unacted_actor() {
    let encounter = CombatEncounter::new(vec![7, 3, 9]);
    assert_eq!(encounter.next_turn(), Some(7));
}

#[test]
fn next_turn_skips_actors_that_have_acted() {
    let mut encounter = CombatEncounter::new(vec![7, 3, 9]);
    encounter.complete_turn();
    assert_eq!(encounter.next_turn(), Some(3));
    encounter.complete_turn();
    assert_eq!(encounter.next_turn(), Some(9));
}

#[test]
fn a_round_of_three_actors_takes_exactly_three_calls() {
    let mut encounter = CombatEncounter::new(vec![7, 3, 9]);
    assert!(!encounter.complete_turn());
    assert!(!encounter.complete_turn());
    assert!(encounter.complete_turn());
    assert_eq!(encounter.num_rounds, 1);
    // The flags were reset: the first actor is up again.
    assert_eq!(encounter.next_turn(), Some(7));
}

#[test]
fn a_single_actor_completes_a_round_every_call() {
    let mut encounter = CombatEncounter::new(vec![42]);
    assert!(encounter.complete_turn());
    assert!(encounter.complete_turn());
    assert_eq!(encounter.num_rounds, 2);
}

#[test]
fn check_round_completion_without_everyone_acted_changes_nothing() {
    let mut encounter = CombatEncounter::new(vec![7, 3]);
    encounter.complete_turn();
    assert!(!encounter.check_round_completion());
    assert_eq!(encounter.num_rounds, 0);
    assert_eq!(encounter.next_turn(), Some(3));
}

#[test]
fn get_all_entities_keeps_initiative_order() {
    let mut encounter = CombatEncounter::new(vec![7, 3, 9]);
    assert_eq!(encounter.get_all_entities(), vec![7, 3, 9]);
    encounter.complete_turn();
    // Acting does not reorder the initiative.
    assert_eq!(encounter.get_all_entities(), vec![7, 3, 9]);
}

#[test]
fn next_turn_on_a_fresh_empty_encounter_is_none() {
    let encounter = CombatEncounter::new(Vec::new());
    assert_eq!(encounter.next_turn(), None);
}

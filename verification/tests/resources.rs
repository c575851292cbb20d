use combat_sandbox::components::ActionPoints;
use combat_sandbox::components::MovementPoints;

#[test]
fn minor_action_spends_one_point() {
    let mut ap = ActionPoints::new();
    assert_eq!(ap.get(), 3);
    assert_eq!(ap.minor_action(), Ok(2));
    assert_eq!(ap.get(), 2);
}

#[test]
fn minor_action_on_empty_pool_fails_unchanged() {
    let mut ap = ActionPoints(0);
    assert_eq!(ap.minor_action(), Err(0));
    assert_eq!(ap.get(), 0);
}

#[test]
fn significant_action_needs_two_points() {
    let mut ap = ActionPoints(1);
    assert_eq!(ap.significant_action(), Err(1));
    assert_eq!(ap.get(), 1);
}

#[test]
fn significant_action_spends_two_points() {
    let mut ap = ActionPoints::new();
    assert_eq!(ap.significant_action(), Ok(1));
    assert_eq!(ap.get(), 1);
}

#[test]
fn full_turn_has_no_guard_and_can_go_negative() {
    let mut ap = ActionPoints(2);
    ap.full_turn();
    assert_eq!(ap.get(), -1);
}

#[test]
fn reset_restores_the_full_budget() {
    let mut ap = ActionPoints(-1);
    ap.reset();
    assert_eq!(ap.get(), 3);
}

#[test]
fn movement_points_default_is_three() {
    let mp = MovementPoints::default();
    assert_eq!(mp.current(), 3);
    assert!(mp.can_move());
}

#[test]
fn movement_points_custom_budget() {
    let mp = MovementPoints::new(5);
    assert_eq!(mp.current(), 5);
}

#[test]
fn decrement_spends_one_step() {
    let mut mp = MovementPoints::default();
    mp.decrement();
    assert_eq!(mp.current(), 2);
    mp.decrement();
    mp.decrement();
    assert_eq!(mp.current(), 0);
    assert!(!mp.can_move());
}

#[test]
fn movement_reset_restores_the_maximum() {
    let mut mp = MovementPoints::new(4);
    mp.decrement();
    mp.decrement();
    mp.reset();
    assert_eq!(mp.current(), 4);
}

use mission_board::ledger::{completion_awards, points_to_add, DAILY_POINT_CAP};
use mission_board::lifecycle::participants_with_chief;

#[test]
fn cap_constant_is_fifteen() {
    assert_eq!(DAILY_POINT_CAP, 15);
}

#[test]
fn award_formula_exact_values() {
    // to_add = min(points, max(0, 15 - max(0, earned - points)))
    assert_eq!(points_to_add(5, 0), 5);
    assert_eq!(points_to_add(5, 5), 5);
    assert_eq!(points_to_add(5, 12), 5); // prior 7, allowed 8
    assert_eq!(points_to_add(5, 16), 4); // prior 11, allowed 4
    assert_eq!(points_to_add(5, 20), 0); // prior 15, allowed 0
    assert_eq!(points_to_add(5, 100), 0);
    assert_eq!(points_to_add(3, 17), 1); // prior 14, allowed 1
    assert_eq!(points_to_add(1, 15), 1); // prior 14, allowed 1
    assert_eq!(points_to_add(0, 0), 0);
    assert_eq!(points_to_add(5, -7), 5); // negative day figure: prior 0
}

#[test]
fn hard_mission_pays_both_participants() {
    // A HARD mission (5 points), chief 1 with 12 already earned today,
    // crew member 2 with nothing: both are owed the full 5.
    let crew = vec![2];
    let participants = participants_with_chief(&crew, 1);
    assert_eq!(participants, vec![2, 1]);
    let with_earned = vec![(2, 0i64), (1, 12i64)];
    let awards = completion_awards(5, &with_earned);
    assert_eq!(awards, vec![(2, 5), (1, 5)]);
}

#[test]
fn over_cap_participant_gets_nothing() {
    // Chief 1 already has 20 attributed today (this mission included):
    // prior is 15, nothing is allowed, and no entry is produced for them.
    let with_earned = vec![(2, 0i64), (1, 20i64)];
    let awards = completion_awards(5, &with_earned);
    assert_eq!(awards, vec![(2, 5)]);
}

#[test]
fn awards_are_independent_per_participant() {
    let with_earned = vec![(7, 14i64), (8, 5i64), (9, 16i64)];
    let awards = completion_awards(5, &with_earned);
    // 7: prior 9, allowed 6, gets 5; 8: prior 0, gets 5; 9: prior 11, gets 4.
    assert_eq!(awards, vec![(7, 5), (8, 5), (9, 4)]);
}

#[test]
fn empty_participants_pay_nobody() {
    let awards = completion_awards(5, &vec![]);
    assert!(awards.is_empty());
}

use tmq::assignment::{seek_allowed, topic_assignment};
use tmq::Assignment;

fn snapshot() -> Vec<(String, Vec<Assignment>)> {
    vec![
        (
            "topic_a".to_string(),
            vec![Assignment::new(3, 10, 0, 10), Assignment::new(4, 7, 5, 20)],
        ),
        ("topic_b".to_string(), vec![Assignment::new(3, 100, 100, 200)]),
        ("topic_a".to_string(), vec![Assignment::new(9, 1, 1, 1)]),
        ("empty".to_string(), Vec::new()),
    ]
}

#[test]
fn new_keeps_the_four_values() {
    let a = Assignment::new(3, 10, -5, 20);
    assert_eq!(a.vgroup_id(), 3);
    assert_eq!(a.current_offset(), 10);
    assert_eq!(a.begin(), -5);
    assert_eq!(a.end(), 20);
}

#[test]
fn default_is_all_zero() {
    let a = Assignment::default();
    assert_eq!(a, Assignment::new(0, 0, 0, 0));
    assert!(a.within_window());
}

#[test]
fn assignments_compare_by_value() {
    assert_eq!(Assignment::new(1, 2, 3, 4), Assignment::new(1, 2, 3, 4));
    assert_ne!(Assignment::new(1, 2, 3, 4), Assignment::new(1, 2, 3, 5));
    let a = Assignment::new(1, 2, 3, 4);
    let copy = a;
    assert_eq!(a, copy);
}

#[test]
fn within_window_checks_the_offset_against_both_ends() {
    assert!(Assignment::new(1, 5, 0, 10).within_window());
    assert!(Assignment::new(1, 0, 0, 10).within_window());
    assert!(Assignment::new(1, 10, 0, 10).within_window());
    assert!(!Assignment::new(1, -1, 0, 10).within_window());
    assert!(!Assignment::new(1, 11, 0, 10).within_window());
    assert!(!Assignment::new(1, 5, 10, 0).within_window());
    assert!(Assignment::new(1, i64::MIN, i64::MIN, i64::MAX).within_window());
}

#[test]
fn admits_takes_the_ends_of_the_window_in() {
    let a = Assignment::new(3, 4, 0, 10);
    assert!(a.admits(0));
    assert!(a.admits(10));
    assert!(a.admits(4));
    assert!(!a.admits(-1));
    assert!(!a.admits(11));
    assert!(!a.admits(15));
    assert!(!a.admits(i64::MAX));
}

#[test]
fn topic_assignment_picks_the_entries_of_the_topic_in_order() {
    let all = snapshot();
    assert_eq!(
        topic_assignment(&all, "topic_a"),
        vec![
            Assignment::new(3, 10, 0, 10),
            Assignment::new(4, 7, 5, 20),
            Assignment::new(9, 1, 1, 1)
        ]
    );
    assert_eq!(topic_assignment(&all, "topic_b"), vec![Assignment::new(3, 100, 100, 200)]);
}

#[test]
fn topic_assignment_of_an_unknown_topic_is_empty() {
    let all = snapshot();
    assert_eq!(topic_assignment(&all, "topic_c"), Vec::new());
    assert_eq!(topic_assignment(&all, "empty"), Vec::new());
    assert_eq!(topic_assignment(&all, "topic_"), Vec::new());
    assert_eq!(topic_assignment(&all, "TOPIC_A"), Vec::new());
    assert_eq!(topic_assignment(&Vec::new(), "topic_a"), Vec::new());
}

#[test]
fn topic_assignment_keeps_offsets_within_their_windows() {
    let all = snapshot();
    assert!(all.iter().all(|(_, list)| list.iter().all(|a| a.within_window())));
    for topic in ["topic_a", "topic_b", "empty"] {
        assert!(topic_assignment(&all, topic).iter().all(|a| a.within_window()));
    }
}

#[test]
fn seek_is_allowed_inside_the_window_of_an_assigned_partition() {
    let all = snapshot();
    assert!(seek_allowed(&all, "topic_a", 3, 0));
    assert!(seek_allowed(&all, "topic_a", 3, 10));
    assert!(seek_allowed(&all, "topic_a", 4, 20));
    assert!(seek_allowed(&all, "topic_a", 9, 1));
    assert!(seek_allowed(&all, "topic_b", 3, 150));
}

#[test]
fn seek_is_refused_outside_the_window() {
    let all = snapshot();
    assert!(!seek_allowed(&all, "topic_a", 3, 15));
    assert!(!seek_allowed(&all, "topic_a", 3, 11));
    assert!(!seek_allowed(&all, "topic_a", 3, -1));
    assert!(!seek_allowed(&all, "topic_a", 4, 4));
    assert!(!seek_allowed(&all, "topic_b", 3, 10));
}

#[test]
fn seek_is_refused_for_a_partition_that_is_not_assigned() {
    let all = snapshot();
    assert!(!seek_allowed(&all, "topic_a", 5, 5));
    assert!(!seek_allowed(&all, "topic_b", 4, 150));
    assert!(!seek_allowed(&all, "topic_c", 3, 5));
    assert!(!seek_allowed(&all, "empty", 3, 5));
    assert!(!seek_allowed(&Vec::new(), "topic_a", 3, 5));
}

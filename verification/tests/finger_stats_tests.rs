use racoon_typper::finger_map::Finger;
use racoon_typper::finger_stats::{finger_tallies, FingerTally};

fn accuracy(t: &FingerTally) -> f64 {
    (t.correct as f64 / t.total as f64) * 100.0
}

#[test]
fn finger_stats_basic() {
    let keystrokes = vec![('a', true, 100), ('a', true, 120), ('a', false, 150)];
    let stats = finger_tallies(&keystrokes, false);
    assert_eq!(stats.len(), 1);
    assert_eq!(stats[0].finger.display_name(), "Left Pinky");
    assert_eq!(stats[0].total, 3);
    assert_eq!(stats[0].correct, 2);
    assert_eq!(stats[0].incorrect, 1);
    assert_eq!(stats[0].total_interval_ms, 370);
}

#[test]
fn finger_stats_multiple_fingers() {
    let keystrokes = vec![('a', true, 100), ('f', true, 100), ('j', true, 100)];
    let stats = finger_tallies(&keystrokes, false);
    assert_eq!(stats.len(), 3);
}

#[test]
fn finger_stats_accuracy() {
    let keystrokes = vec![('a', true, 100), ('a', false, 100)];
    let stats = finger_tallies(&keystrokes, false);
    assert!((accuracy(&stats[0]) - 50.0).abs() < 0.01);
}

#[test]
fn finger_stats_empty() {
    let stats = finger_tallies(&[], false);
    assert!(stats.is_empty());
}

#[test]
fn finger_stats_sorted_by_usage() {
    let keystrokes = vec![('a', true, 100), ('a', true, 100), ('a', true, 100), ('f', true, 100)];
    let stats = finger_tallies(&keystrokes, false);
    assert_eq!(stats[0].finger.display_name(), "Left Pinky");
    assert_eq!(stats[1].finger.display_name(), "Left Index");
}

#[test]
fn russian_letters_use_the_jcuken_fingers() {
    let keystrokes = vec![('ф', true, 90), ('a', false, 110)];
    let stats = finger_tallies(&keystrokes, true);
    assert_eq!(stats.len(), 1);
    assert_eq!(stats[0].finger, Finger::LeftPinky);
    assert_eq!(stats[0].total, 2);
    assert_eq!(stats[0].total_interval_ms, 200);
}

use racoon_typper::domain::CharStatus;
use racoon_typper::engine::ReplayFrame as KeyFrame;
use racoon_typper::error::DbError;
use racoon_typper::replay_store::{replay_matches, replay_projection, ReplayFrame};

fn key(ts: u64, pos: usize, expected: char, typed: Option<char>, name: &str, status: CharStatus) -> KeyFrame {
    KeyFrame {
        timestamp_ms: ts,
        key: name.to_string(),
        caret_pos: pos,
        char_status: status,
        expected_char: expected,
        typed_char: typed,
    }
}

fn frames() -> Vec<KeyFrame> {
    vec![
        key(0, 0, 'h', Some('h'), "h", CharStatus::Correct),
        key(120, 1, 'i', Some('x'), "x", CharStatus::Incorrect),
        key(250, 1, 'i', None, "Backspace", CharStatus::Backspaced),
    ]
}

#[test]
fn projection_keeps_order_and_fields() {
    let rows = replay_projection(&frames(), 42).unwrap();
    assert_eq!(rows.len(), 3);
    assert_eq!(rows[0].test_id, 42);
    assert_eq!(rows[0].id, 0);
    assert_eq!(rows[1].frame_index, 1);
    assert_eq!(rows[1].timestamp_ms, 120);
    assert_eq!(rows[1].position, 1);
    assert_eq!(rows[1].expected_char, "i");
    assert_eq!(rows[1].typed_char.as_deref(), Some("x"));
    assert!(rows[0].correct);
    assert!(!rows[1].correct);
    assert_eq!(rows[2].typed_char.as_deref(), Some("Backspace"));
}

#[test]
fn projection_rejects_values_beyond_i64() {
    let mut f = frames();
    f[1].timestamp_ms = u64::MAX;
    match replay_projection(&f, 1) {
        Err(DbError::Integrity(m)) => assert_eq!(m, "replay timestamp exceeds i64"),
        other => panic!("unexpected {:?}", other.map(|r| r.len())),
    }
    let mut g = frames();
    g[2].caret_pos = usize::MAX;
    match replay_projection(&g, 1) {
        Err(DbError::Integrity(m)) => assert_eq!(m, "replay position exceeds i64"),
        other => panic!("unexpected {:?}", other.map(|r| r.len())),
    }
}

#[test]
fn stored_rows_match_their_projection() {
    let expected = replay_projection(&frames(), 7).unwrap();
    let stored: Vec<ReplayFrame> = expected
        .iter()
        .enumerate()
        .map(|(i, r)| ReplayFrame { id: 100 + i as i64, ..r.clone() })
        .collect();
    assert!(replay_matches(&stored, &expected, 7));
    assert!(!replay_matches(&stored, &expected, 8));
    assert!(!replay_matches(&stored[..2], &expected, 7));
    let mut changed = stored.clone();
    changed[1].typed_char = None;
    assert!(!replay_matches(&changed, &expected, 7));
    let mut moved = stored.clone();
    moved[2].position = 5;
    assert!(!replay_matches(&moved, &expected, 7));
    assert!(replay_matches(&[], &[], 7));
}

use racoon_typper::committed_test::{
    stored_row_matches_intent, stored_test_matches_intent, IntentView, StoredTestRow,
};
use racoon_typper::replay_store::ReplayFrame;

fn json(text: &str) -> serde_json::Value {
    serde_json::from_str(text).unwrap()
}

fn intent() -> IntentView {
    IntentView {
        completed_at: "2026-06-01T10:00:00.000000Z".to_string(),
        mode_type: "time".to_string(),
        mode_config: json(r#"{"duration": 30, "language": "en"}"#),
        language: "en".to_string(),
        text_length: 11,
        duration_ms: 30_000,
        wpm_bits: 42.5f64.to_bits(),
        raw_wpm_bits: 45.0f64.to_bits(),
        accuracy_bits: 97.0f64.to_bits(),
        raw_accuracy_bits: 95.0f64.to_bits(),
        consistency_bits: Some(80.0f64.to_bits()),
        correct_chars: 10,
        incorrect_chars: 1,
        backspaces: 2,
        char_stats: json(r#"{"a": {"correct": 1}}"#),
        heatmap: json("{}"),
        graph_data: None,
    }
}

fn row() -> StoredTestRow {
    StoredTestRow {
        id: 7,
        created_at: "2026-06-01T10:00:00.000000Z".to_string(),
        mode_type: "time".to_string(),
        mode_config: r#"{"language":"en","duration":30}"#.to_string(),
        language: "en".to_string(),
        text_length: 11,
        duration_ms: 30_000,
        wpm_bits: 42.5f64.to_bits(),
        raw_wpm_bits: 45.0f64.to_bits(),
        accuracy_bits: 97.0f64.to_bits(),
        raw_accuracy_bits: 95.0f64.to_bits(),
        consistency_bits: Some(80.0f64.to_bits()),
        correct_chars: 10,
        incorrect_chars: 1,
        backspaces: 2,
        char_stats: r#"{"a":{"correct":1}}"#.to_string(),
        heatmap_data: "{}".to_string(),
        graph_data: None,
        is_pb: 0,
        tags: String::new(),
    }
}

fn frame(test_id: i64, index: i64) -> ReplayFrame {
    ReplayFrame {
        id: 100 + index,
        test_id,
        frame_index: index,
        timestamp_ms: 10 * index,
        position: index,
        expected_char: "a".to_string(),
        typed_char: Some("a".to_string()),
        correct: true,
    }
}

#[test]
fn the_committed_test_matches_its_intent() {
    let stored = vec![frame(7, 0), frame(7, 1)];
    let expected = vec![frame(7, 0), frame(7, 1)];
    assert!(stored_row_matches_intent(&row(), &intent()));
    assert!(stored_test_matches_intent(&row(), &intent(), &stored, &expected));
}

#[test]
fn any_differing_column_is_no_match() {
    let mut r = row();
    r.wpm_bits = 42.6f64.to_bits();
    assert!(!stored_row_matches_intent(&r, &intent()));
    let mut r = row();
    r.mode_config = r#"{"duration": 60, "language": "en"}"#.to_string();
    assert!(!stored_row_matches_intent(&r, &intent()));
    let mut r = row();
    r.mode_config = "not json".to_string();
    assert!(!stored_row_matches_intent(&r, &intent()));
    let mut r = row();
    r.is_pb = 2;
    assert!(!stored_row_matches_intent(&r, &intent()));
    let mut r = row();
    r.tags = "x".to_string();
    assert!(!stored_row_matches_intent(&r, &intent()));
    let mut r = row();
    r.graph_data = Some("[]".to_string());
    assert!(!stored_row_matches_intent(&r, &intent()));
    let mut r = row();
    r.consistency_bits = None;
    assert!(!stored_row_matches_intent(&r, &intent()));
    let mut r = row();
    r.correct_chars = 9;
    assert!(!stored_row_matches_intent(&r, &intent()));
}

#[test]
fn a_differing_replay_is_no_match() {
    let expected = vec![frame(7, 0), frame(7, 1)];
    assert!(!stored_test_matches_intent(&row(), &intent(), &[frame(7, 0)], &expected));
    assert!(!stored_test_matches_intent(&row(), &intent(), &[frame(7, 0), frame(8, 1)], &expected));
    let mut changed = frame(7, 1);
    changed.correct = false;
    assert!(!stored_test_matches_intent(&row(), &intent(), &[frame(7, 0), changed], &expected));
}

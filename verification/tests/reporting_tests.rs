use racoon_typper::error::DbError;
use racoon_typper::reporting::{
    completed_lessons_sql, history_filter, replay_page_has_more, stored_achievement_counts,
    stored_daily_counts, stored_streak_lengths, stored_test_counts,
};

fn message(e: DbError) -> String {
    match e {
        DbError::Validation(m) => m,
        other => panic!("unexpected {:?}", other),
    }
}

#[test]
fn stored_counts_convert() {
    let c = stored_test_counts(50, 30_000, 45, 5, 2).unwrap();
    assert_eq!(c.text_length, 50);
    assert_eq!(c.duration_ms, 30_000);
    assert_eq!(c.correct_chars, 45);
    assert_eq!(c.incorrect_chars, 5);
    assert_eq!(c.backspaces, 2);
}

#[test]
fn negative_counts_are_rejected_in_order() {
    assert_eq!(message(stored_test_counts(-1, -1, 0, 0, 0).unwrap_err()), "text_length exceeds u64");
    assert_eq!(message(stored_test_counts(1, -1, 0, 0, 0).unwrap_err()), "duration_ms exceeds u64");
    assert_eq!(message(stored_test_counts(1, 1, -3, 0, 0).unwrap_err()), "correct_chars exceeds u64");
    assert_eq!(message(stored_test_counts(1, 1, 0, -3, 0).unwrap_err()), "incorrect_chars exceeds u64");
    assert_eq!(message(stored_test_counts(1, 1, 0, 0, i64::MIN).unwrap_err()), "backspaces exceeds u64");
}

#[test]
fn history_filter_without_conditions_is_empty() {
    let f = history_filter(None, None, None);
    assert_eq!(f.clause, "");
    assert!(f.values.is_empty());
}

#[test]
fn history_filter_joins_conditions_in_order() {
    let f = history_filter(
        Some("time"),
        Some("2024-01-01T00:00:00Z"),
        Some("2024-01-02T00:00:00Z"),
    );
    assert_eq!(
        f.clause,
        " WHERE mode_type = ? AND created_at >= ? AND created_at < ?"
    );
    assert_eq!(
        f.values,
        vec![
            "time".to_string(),
            "2024-01-01T00:00:00Z".to_string(),
            "2024-01-02T00:00:00Z".to_string()
        ]
    );
}

#[test]
fn history_filter_by_range_only() {
    let f = history_filter(None, Some("a"), Some("b"));
    assert_eq!(f.clause, " WHERE created_at >= ? AND created_at < ?");
    assert_eq!(f.values, vec!["a".to_string(), "b".to_string()]);
    let g = history_filter(Some("words"), None, None);
    assert_eq!(g.clause, " WHERE mode_type = ?");
    assert_eq!(g.values, vec!["words".to_string()]);
}

#[test]
fn replay_page_reports_remaining_frames() {
    assert!(replay_page_has_more(0, 10, 25));
    assert!(replay_page_has_more(10, 10, 25));
    assert!(!replay_page_has_more(20, 5, 25));
    assert!(!replay_page_has_more(30, 0, 25));
    assert!(!replay_page_has_more(u64::MAX, 5, 25));
}

#[test]
fn daily_counts_convert() {
    let c = stored_daily_counts(3, 90_000, 450, 1).unwrap();
    assert_eq!(c.total_tests, 3);
    assert_eq!(c.total_time_ms, 90_000);
    assert_eq!(c.total_chars, 450);
    assert_eq!(c.lessons_completed, 1);
}

#[test]
fn negative_daily_counts_are_rejected_in_order() {
    assert_eq!(message(stored_daily_counts(-1, -1, 0, 0).unwrap_err()), "total_tests exceeds u64");
    assert_eq!(message(stored_daily_counts(0, -1, -1, 0).unwrap_err()), "total_time_ms exceeds u64");
    assert_eq!(message(stored_daily_counts(0, 0, -1, -1).unwrap_err()), "total_chars exceeds u64");
    assert_eq!(
        message(stored_daily_counts(0, 0, 0, -1).unwrap_err()),
        "lessons_completed exceeds u64"
    );
}

#[test]
fn streak_lengths_default_to_zero() {
    assert_eq!(stored_streak_lengths(None).unwrap(), (0, 0));
    assert_eq!(stored_streak_lengths(Some((3, 7))).unwrap(), (3, 7));
    assert_eq!(message(stored_streak_lengths(Some((-1, 7))).unwrap_err()), "streak exceeds u64");
    assert_eq!(message(stored_streak_lengths(Some((1, -7))).unwrap_err()), "streak exceeds u64");
}

#[test]
fn achievement_counts_convert() {
    let c = stored_achievement_counts(12, Some(5), 3).unwrap();
    assert_eq!((c.total_tests, c.longest_streak, c.lessons_completed), (12, 5, 3));
    let d = stored_achievement_counts(0, None, 0).unwrap();
    assert_eq!(d.longest_streak, 0);
    assert_eq!(message(stored_achievement_counts(-1, Some(-1), 0).unwrap_err()), "test count exceeds u64");
    assert_eq!(message(stored_achievement_counts(1, Some(-1), -1).unwrap_err()), "streak exceeds u64");
    assert_eq!(message(stored_achievement_counts(1, None, -1).unwrap_err()), "lesson count exceeds u64");
}

#[test]
fn completed_lessons_query_has_one_placeholder_per_language() {
    assert_eq!(completed_lessons_sql(0), None);
    assert_eq!(
        completed_lessons_sql(1).unwrap(),
        "SELECT COUNT(*) FROM lesson_progress WHERE status = 'completed' AND language IN (?)"
    );
    assert_eq!(
        completed_lessons_sql(3).unwrap(),
        "SELECT COUNT(*) FROM lesson_progress WHERE status = 'completed' AND language IN (?, ?, ?)"
    );
}

use racoon_typper::streaks::{
    checked_next_daily_streak, next_daily_streak, streak_from_dates_on, StreakEngine, StreakRecord,
};

#[test]
fn first_test_starts_streak() {
    let (curr, longest, active) = StreakEngine::compute_streak(0, 0, None, "2026-06-01");
    assert_eq!(curr, 1);
    assert_eq!(longest, 1);
    assert!(active);
}

#[test]
fn consecutive_day_increments() {
    let (curr, longest, _) =
        StreakEngine::compute_streak(3, 5, Some("2026-06-01"), "2026-06-02");
    assert_eq!(curr, 4);
    assert_eq!(longest, 5);
}

#[test]
fn consecutive_day_updates_longest() {
    let (curr, longest, _) =
        StreakEngine::compute_streak(5, 5, Some("2026-06-01"), "2026-06-02");
    assert_eq!(curr, 6);
    assert_eq!(longest, 6);
}

#[test]
fn same_day_no_change() {
    let (curr, longest, _) =
        StreakEngine::compute_streak(3, 5, Some("2026-06-01"), "2026-06-01");
    assert_eq!(curr, 3);
    assert_eq!(longest, 5);
}

#[test]
fn skipped_day_resets() {
    let (curr, longest, _) =
        StreakEngine::compute_streak(5, 7, Some("2026-06-01"), "2026-06-03");
    assert_eq!(curr, 1);
    assert_eq!(longest, 7);
}

#[test]
fn skipped_multiple_days_resets() {
    let (curr, longest, _) =
        StreakEngine::compute_streak(10, 15, Some("2026-06-01"), "2026-06-10");
    assert_eq!(curr, 1);
    assert_eq!(longest, 15);
}

#[test]
fn is_active_today() {
    assert!(StreakEngine::is_streak_active(
        Some("2026-06-01"),
        "2026-06-01"
    ));
}

#[test]
fn is_active_yesterday() {
    assert!(StreakEngine::is_streak_active(
        Some("2026-06-01"),
        "2026-06-02"
    ));
}

#[test]
fn is_inactive_two_days_ago() {
    assert!(!StreakEngine::is_streak_active(
        Some("2026-06-01"),
        "2026-06-03"
    ));
}

#[test]
fn is_inactive_no_last_date() {
    assert!(!StreakEngine::is_streak_active(None, "2026-06-01"));
}

#[test]
fn days_between_same_day() {
    assert_eq!(StreakEngine::days_between("2026-06-01", "2026-06-01"), 0);
}

#[test]
fn days_between_one_day() {
    assert_eq!(StreakEngine::days_between("2026-06-01", "2026-06-02"), 1);
}

#[test]
fn days_between_week() {
    assert_eq!(StreakEngine::days_between("2026-06-01", "2026-06-08"), 7);
}

#[test]
fn days_between_unparseable_is_zero() {
    assert_eq!(StreakEngine::days_between("not a date", "2026-06-01"), 0);
    assert_eq!(StreakEngine::days_between("2026-06-01", "2026-13-01"), 0);
}

#[test]
fn days_between_backwards_is_negative_and_crosses_years() {
    assert_eq!(StreakEngine::days_between("2026-06-02", "2026-06-01"), -1);
    assert_eq!(StreakEngine::days_between("2025-12-31", "2026-01-01"), 1);
    assert_eq!(StreakEngine::days_between("2024-02-28", "2024-03-01"), 2);
}

#[test]
fn advance_streak_follows_the_gap() {
    assert_eq!(StreakEngine::advance_streak(3, 5, Some(1)), (4, 5, true));
    assert_eq!(StreakEngine::advance_streak(3, 5, Some(0)), (3, 5, true));
    assert_eq!(StreakEngine::advance_streak(3, 5, Some(4)), (1, 5, true));
    assert_eq!(StreakEngine::advance_streak(0, 0, None), (1, 1, true));
    assert_eq!(StreakEngine::day_difference_of(Some(10), Some(13)), 3);
    assert_eq!(StreakEngine::day_difference_of(None, Some(13)), 0);
}

#[test]
fn streak_from_dates_consecutive() {
    let dates = vec![
        "2026-06-01".to_string(),
        "2026-06-02".to_string(),
        "2026-06-03".to_string(),
    ];
    let (_curr, longest) = StreakEngine::streak_from_dates(&dates);
    assert_eq!(longest, 3);
}

#[test]
fn streak_from_dates_with_gap() {
    let dates = vec![
        "2026-06-01".to_string(),
        "2026-06-02".to_string(),
        "2026-06-05".to_string(),
    ];
    let (_curr, longest) = StreakEngine::streak_from_dates(&dates);
    assert_eq!(longest, 2);
}

#[test]
fn streak_from_dates_empty() {
    let (curr, longest) = StreakEngine::streak_from_dates(&[]);
    assert_eq!(curr, 0);
    assert_eq!(longest, 0);
}

#[test]
fn streak_from_dates_same_day_multiple() {
    let dates = vec![
        "2026-06-01".to_string(),
        "2026-06-01".to_string(),
        "2026-06-01".to_string(),
    ];
    let (_, longest) = StreakEngine::streak_from_dates(&dates);
    assert_eq!(longest, 1);
}

#[test]
fn streak_from_dates_on_counts_an_active_run() {
    let dates = vec![
        "2026-06-03".to_string(),
        "2026-06-01".to_string(),
        "2026-06-02".to_string(),
        "2026-06-02".to_string(),
    ];
    assert_eq!(streak_from_dates_on(&dates, "2026-06-04"), (3, 3));
    assert_eq!(streak_from_dates_on(&dates, "2026-06-03"), (3, 3));
    assert_eq!(streak_from_dates_on(&dates, "2026-06-05"), (0, 3));
}

#[test]
fn streak_from_dates_on_restarts_after_a_gap() {
    let dates = vec![
        "2026-06-01".to_string(),
        "2026-06-02".to_string(),
        "2026-06-03".to_string(),
        "2026-06-10".to_string(),
        "2026-06-11".to_string(),
    ];
    assert_eq!(streak_from_dates_on(&dates, "2026-06-11"), (2, 3));
}

#[test]
fn streak_from_dates_on_ignores_order_and_repeats() {
    let a = vec!["2026-06-01".to_string(), "2026-06-02".to_string()];
    let b = vec![
        "2026-06-02".to_string(),
        "2026-06-01".to_string(),
        "2026-06-02".to_string(),
    ];
    assert_eq!(
        streak_from_dates_on(&a, "2026-06-02"),
        streak_from_dates_on(&b, "2026-06-02")
    );
}

#[test]
fn daily_streak_starts_on_the_first_test() {
    let r = next_daily_streak(None, "2026-06-01");
    assert_eq!(r.streak_type, "daily_test");
    assert_eq!(r.current_streak, 1);
    assert_eq!(r.longest_streak, 1);
    assert_eq!(r.last_date.as_deref(), Some("2026-06-01"));
    assert_eq!(r.started_date.as_deref(), Some("2026-06-01"));
}

#[test]
fn daily_streak_extends_and_keeps_its_start() {
    let before = StreakRecord {
        streak_type: "daily_test".to_string(),
        current_streak: 2,
        longest_streak: 4,
        last_date: Some("2026-06-02".to_string()),
        started_date: Some("2026-06-01".to_string()),
    };
    let r = next_daily_streak(Some(before), "2026-06-03");
    assert_eq!((r.current_streak, r.longest_streak), (3, 4));
    assert_eq!(r.last_date.as_deref(), Some("2026-06-03"));
    assert_eq!(r.started_date.as_deref(), Some("2026-06-01"));
}

#[test]
fn daily_streak_restarts_after_a_missed_day() {
    let before = StreakRecord {
        streak_type: "daily_test".to_string(),
        current_streak: 5,
        longest_streak: 5,
        last_date: Some("2026-06-02".to_string()),
        started_date: Some("2026-05-29".to_string()),
    };
    let r = next_daily_streak(Some(before), "2026-06-05");
    assert_eq!((r.current_streak, r.longest_streak), (1, 5));
    assert_eq!(r.started_date.as_deref(), Some("2026-06-05"));
}

#[test]
fn daily_streak_same_day_is_unchanged() {
    let first = next_daily_streak(None, "2026-06-01");
    let second = next_daily_streak(Some(first.clone()), "2026-06-01");
    assert_eq!(first.current_streak, second.current_streak);
    assert_eq!(first.longest_streak, second.longest_streak);
    assert_eq!(first.started_date, second.started_date);
    assert_eq!(first.last_date, second.last_date);
}

#[test]
fn daily_streak_without_a_start_date_keeps_today() {
    let before = StreakRecord {
        streak_type: "daily_test".to_string(),
        current_streak: 1,
        longest_streak: 1,
        last_date: Some("2026-06-01".to_string()),
        started_date: None,
    };
    let r = next_daily_streak(Some(before), "2026-06-02");
    assert_eq!(r.current_streak, 2);
    assert_eq!(r.started_date.as_deref(), Some("2026-06-02"));
}

#[test]
fn a_last_date_after_today_is_not_active() {
    assert!(!StreakEngine::is_streak_active(Some("2026-06-05"), "2026-06-01"));
}

#[test]
fn checked_streak_update_refuses_to_overflow() {
    let at_max = StreakRecord {
        streak_type: "daily_test".to_string(),
        current_streak: i64::MAX,
        longest_streak: i64::MAX,
        last_date: Some("2026-06-01".to_string()),
        started_date: Some("2000-01-01".to_string()),
    };
    assert!(checked_next_daily_streak(Some(at_max.clone()), "2026-06-02").is_none());
    let same_day = checked_next_daily_streak(Some(at_max), "2026-06-01").unwrap();
    assert_eq!(same_day.current_streak, i64::MAX);
    let fresh = checked_next_daily_streak(None, "2026-06-01").unwrap();
    assert_eq!(fresh.current_streak, 1);
}

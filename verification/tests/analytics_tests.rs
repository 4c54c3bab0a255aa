use racoon_typper::analytics::{
    check_achievements, export_csv, export_markdown, timeline_windows, SessionReplay, TimelineWindow,
};

#[test]
fn export_csv_basic() {
    let rows = vec![
        vec!["Date".to_string(), "WPM".to_string(), "Accuracy".to_string()],
        vec!["2026-06-01".to_string(), "40".to_string(), "95".to_string()],
    ];
    let csv = export_csv(&rows);
    assert!(csv.contains("Date,WPM,Accuracy"));
    assert!(csv.contains("2026-06-01,40,95"));
}

#[test]
fn export_csv_with_commas() {
    let rows = vec![vec!["Name, with comma".to_string(), "Value".to_string()]];
    let csv = export_csv(&rows);
    assert!(csv.contains("\"Name, with comma\""));
}

#[test]
fn export_csv_exact_text_with_quotes_and_lines() {
    let rows = vec![
        vec!["a".to_string(), "say \"hi\"".to_string()],
        vec!["two\nlines".to_string()],
    ];
    assert_eq!(export_csv(&rows), "a,\"say \"\"hi\"\"\"\n\"two\nlines\"");
    assert_eq!(export_csv(&[]), "");
}

#[test]
fn export_markdown_renders_table_and_summary() {
    let rows = vec![
        vec!["Date".to_string(), "WPM".to_string()],
        vec!["2026-06-01".to_string(), "40".to_string()],
    ];
    let summary = vec![("Total tests", "1".to_string())];
    let md = export_markdown(&rows, &summary);
    assert!(md.contains("# Racoon Typper export"));
    assert!(md.contains("| Total tests | 1 |"));
    assert!(md.contains("| Date | WPM |"));
    assert!(md.contains("| 2026-06-01 | 40 |"));
}

#[test]
fn export_markdown_escapes_pipes() {
    let rows = vec![vec!["A|B".to_string()]];
    let md = export_markdown(&rows, &[]);
    assert!(md.contains("A\\|B"));
}

#[test]
fn export_markdown_empty_rows_omits_table() {
    let md = export_markdown(&[], &[]);
    assert!(md.contains("# Racoon Typper export"));
    assert!(!md.contains("## Tests"));
}

#[test]
fn export_markdown_exact_document() {
    let rows = vec![vec!["H".to_string()], vec!["x\ny".to_string()]];
    let summary = vec![("K", "V".to_string())];
    let md = export_markdown(&rows, &summary);
    assert_eq!(
        md,
        "# Racoon Typper export\n\n## Summary\n\n| Metric | Value |\n|---|---|\n| K | V |\n\n## Tests\n\n| H |\n|---|\n| x y |\n\n"
    );
}

#[test]
fn replay_basic() {
    let mut r = SessionReplay::new("hello".to_string());
    r.add_event(0, "h", "h", true);
    r.add_event(100, "e", "e", true);
    r.add_event(200, "x", "l", false);
    assert_eq!(r.events.len(), 3);
    assert_eq!(r.total_duration_ms, 200);
}

#[test]
fn analytics_replay_empty() {
    let r = SessionReplay::new("test".to_string());
    assert_eq!(r.events.len(), 0);
}

#[test]
fn replay_tracks_correctness() {
    let mut r = SessionReplay::new("hi".to_string());
    r.add_event(0, "h", "h", true);
    r.add_event(100, "x", "i", false);
    assert!(r.events[0].correct);
    assert!(!r.events[1].correct);
}

#[test]
fn replay_duration_is_the_latest_timestamp() {
    let mut r = SessionReplay::new("abc".to_string());
    r.add_event(300, "a", "a", true);
    r.add_event(100, "b", "b", true);
    assert_eq!(r.total_duration_ms, 300);
    assert_eq!(r.events[1].key, "b");
}

const NOW: &str = "2026-01-01T00:00:00Z";

#[test]
fn achievements_empty() {
    let a = check_achievements(0, 0, 0, 0, 0, 0, NOW.to_string());
    assert!(!a[0].unlocked);
    assert!(a.iter().all(|x| x.unlocked == x.unlocked_at.is_some()));
}

#[test]
fn achievements_first_test() {
    let a = check_achievements(1, 0, 0, 0, 0, 0, NOW.to_string());
    assert!(a.iter().any(|x| x.id == "first_test" && x.unlocked));
}

#[test]
fn achievements_wpm_50() {
    let a = check_achievements(10, 55, 90, 0, 0, 0, NOW.to_string());
    assert!(a.iter().any(|x| x.id == "wpm_50" && x.unlocked));
    assert!(!a.iter().any(|x| x.id == "wpm_80" && x.unlocked));
}

#[test]
fn achievements_acc_95() {
    let a = check_achievements(10, 40, 96, 0, 0, 0, NOW.to_string());
    assert!(a.iter().any(|x| x.id == "acc_95" && x.unlocked));
}

#[test]
fn achievements_streak_7() {
    let a = check_achievements(10, 40, 90, 5, 7, 0, NOW.to_string());
    assert!(a.iter().any(|x| x.id == "streak_7" && x.unlocked));
}

#[test]
fn achievements_lessons_5() {
    let a = check_achievements(10, 40, 90, 0, 0, 5, NOW.to_string());
    assert!(a.iter().any(|x| x.id == "lessons_5" && x.unlocked));
}

#[test]
fn achievements_all_unlocked() {
    let a = check_achievements(1000, 200, 100, 100, 100, 200, NOW.to_string());
    assert!(a.iter().all(|x| x.unlocked));
}

#[test]
fn achievements_count() {
    let a = check_achievements(0, 0, 0, 0, 0, 0, NOW.to_string());
    assert_eq!(a.len(), 52);
}

#[test]
fn achievements_carry_the_unlock_time_and_catalog_text() {
    let a = check_achievements(5, 0, 0, 0, 0, 0, NOW.to_string());
    let warm_up = a.iter().find(|x| x.id == "5_tests").unwrap();
    assert_eq!(warm_up.name, "Warm Up");
    assert_eq!(warm_up.description, "Complete 5 tests");
    assert_eq!(warm_up.unlocked_at.as_deref(), Some(NOW));
    let regular = a.iter().find(|x| x.id == "25_tests").unwrap();
    assert!(!regular.unlocked);
    assert!(regular.unlocked_at.is_none());
    assert_eq!(a.last().unwrap().id, "acc_98");
}

fn accuracy_of(w: &TimelineWindow) -> f64 {
    (w.correct as f64 / w.total as f64) * 100.0
}

#[test]
fn timeline_empty() {
    let t = timeline_windows(&[], &[], 5000);
    assert!(t.is_empty());
}

#[test]
fn timeline_single_window() {
    let times = vec![0, 100, 200, 300, 400];
    let correct = vec![true, true, true, false, true];
    let t = timeline_windows(&times, &correct, 5000);
    assert_eq!(t.len(), 1);
    assert!((accuracy_of(&t[0]) - 80.0).abs() < 0.01);
}

#[test]
fn timeline_multiple_windows() {
    let times = vec![0, 100, 6000, 6100];
    let correct = vec![true, true, true, true];
    let t = timeline_windows(&times, &correct, 5000);
    assert_eq!(t.len(), 2);
}

#[test]
fn timeline_calculates_wpm() {
    let times: Vec<u64> = (0..5).map(|i| i * 100).collect();
    let correct = vec![true; 5];
    let t = timeline_windows(&times, &correct, 5000);
    let wpm = (t[0].correct as f64 / 5.0) / (5000.0 / 60000.0);
    assert!(wpm > 0.0);
}

#[test]
fn timeline_counts_errors() {
    let times = vec![0, 100, 200, 300, 400];
    let correct = vec![true, false, false, true, true];
    let t = timeline_windows(&times, &correct, 5000);
    assert_eq!(t[0].total - t[0].correct, 2);
}

#[test]
fn timeline_windows_skip_empty_spans_and_short_marks() {
    let times = vec![1000, 1200, 9000, 9500, 13000];
    let correct = vec![true, false, true];
    let t = timeline_windows(&times, &correct, 2000);
    let got: Vec<(u64, usize, usize)> = t.iter().map(|w| (w.timestamp_ms, w.correct, w.total)).collect();
    assert_eq!(got, vec![(1000, 1, 2), (9000, 1, 2)]);
}

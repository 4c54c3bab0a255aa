use racoon_typper::domain::CharStat;
use racoon_typper::weak_keys::{WeakKeyCount, WeakKeyCounts, WeakKeysAnalyzer};

fn stat(correct: usize, incorrect: usize) -> CharStat {
    CharStat {
        correct,
        incorrect,
        total: correct + incorrect,
    }
}

fn make_stats() -> Vec<(String, CharStat)> {
    vec![
        ("e".to_string(), stat(6, 4)),
        ("o".to_string(), stat(20, 0)),
        ("a".to_string(), stat(3, 7)),
        ("i".to_string(), stat(9, 1)),
    ]
}

fn accuracy(k: &WeakKeyCount) -> f64 {
    (k.correct as f64 / k.total as f64) * 100.0
}

fn overall(r: &WeakKeyCounts) -> f64 {
    if r.total_chars_analyzed > 0 {
        (r.total_correct as f64 / r.total_chars_analyzed as f64) * 100.0
    } else {
        100.0
    }
}

fn critical(r: &WeakKeyCounts) -> Vec<&WeakKeyCount> {
    r.weak_keys.iter().filter(|k| accuracy(k) < 70.0).collect()
}

#[test]
fn analyze_returns_sorted_by_errors() {
    let a = WeakKeysAnalyzer::new();
    let report = a.count_weak_keys(&make_stats());
    assert_eq!(report.weak_keys[0].ch, 'a');
    assert_eq!(report.weak_keys[1].ch, 'e');
    assert_eq!(report.weak_keys[2].ch, 'i');
}

#[test]
fn analyze_assigns_ranks() {
    let a = WeakKeysAnalyzer::new();
    let report = a.count_weak_keys(&make_stats());
    assert_eq!(report.weak_keys[0].rank, 1);
    assert_eq!(report.weak_keys[1].rank, 2);
    assert_eq!(report.weak_keys[2].rank, 3);
}

#[test]
fn analyze_excludes_no_error_chars() {
    let a = WeakKeysAnalyzer::new();
    let report = a.count_weak_keys(&make_stats());
    assert!(!report.weak_keys.iter().any(|k| k.ch == 'o'));
}

#[test]
fn analyze_calculates_overall_accuracy() {
    let a = WeakKeysAnalyzer::new();
    let report = a.count_weak_keys(&make_stats());
    assert!((overall(&report) - 76.0).abs() < 0.1);
}

#[test]
fn analyze_counts_critical() {
    let a = WeakKeysAnalyzer::new();
    let report = a.count_weak_keys(&make_stats());
    assert_eq!(critical(&report).len(), 2);
}

#[test]
fn critical_keys_filter() {
    let a = WeakKeysAnalyzer::new();
    let report = a.count_weak_keys(&make_stats());
    let crit = critical(&report);
    assert_eq!(crit.len(), 2);
    assert!(crit.iter().all(|k| accuracy(k) < 70.0));
}

#[test]
fn top_n_filter() {
    let a = WeakKeysAnalyzer::new();
    let report = a.count_weak_keys(&make_stats());
    let top2: Vec<&WeakKeyCount> = report.weak_keys.iter().take(2).collect();
    assert_eq!(top2.len(), 2);
    assert_eq!(top2[0].ch, 'a');
    assert_eq!(top2[1].ch, 'e');
}

#[test]
fn has_critical_true() {
    let a = WeakKeysAnalyzer::new();
    let report = a.count_weak_keys(&make_stats());
    assert!(!critical(&report).is_empty());
}

#[test]
fn has_critical_false() {
    let a = WeakKeysAnalyzer::new();
    let m = vec![("x".to_string(), stat(8, 1))];
    let report = a.count_weak_keys(&m);
    assert!(critical(&report).is_empty());
}

#[test]
fn empty_stats() {
    let a = WeakKeysAnalyzer::new();
    let report = a.count_weak_keys(&[]);
    assert!(report.weak_keys.is_empty());
    assert_eq!(report.total_chars_analyzed, 0);
    assert!((overall(&report) - 100.0).abs() < 0.01);
}

#[test]
fn all_correct_no_weak() {
    let a = WeakKeysAnalyzer::new();
    let m = vec![("a".to_string(), stat(10, 0)), ("b".to_string(), stat(20, 0))];
    let report = a.count_weak_keys(&m);
    assert!(report.weak_keys.is_empty());
}

#[test]
fn accuracy_calculation() {
    let a = WeakKeysAnalyzer::new();
    let report = a.count_weak_keys(&make_stats());
    let a_key = report.weak_keys.iter().find(|k| k.ch == 'a').unwrap();
    assert!((accuracy(a_key) - 30.0).abs() < 0.1);
}

#[test]
fn single_char_analysis() {
    let a = WeakKeysAnalyzer::new();
    let m = vec![("z".to_string(), stat(0, 5))];
    let report = a.count_weak_keys(&m);
    assert_eq!(report.weak_keys.len(), 1);
    assert_eq!(report.weak_keys[0].ch, 'z');
    assert_eq!(report.weak_keys[0].rank, 1);
    assert!(accuracy(&report.weak_keys[0]).abs() < 0.01);
}

#[test]
fn equal_error_counts_keep_their_order() {
    let a = WeakKeysAnalyzer::new();
    let m = vec![
        ("q".to_string(), stat(1, 2)),
        ("w".to_string(), stat(5, 3)),
        ("r".to_string(), stat(4, 2)),
        ("".to_string(), stat(0, 2)),
    ];
    let report = a.count_weak_keys(&m);
    let order: Vec<char> = report.weak_keys.iter().map(|k| k.ch).collect();
    assert_eq!(order, vec!['w', 'q', 'r', ' ']);
    assert_eq!(report.total_chars_analyzed, 19);
    assert_eq!(report.total_correct, 10);
}

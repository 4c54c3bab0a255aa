use racoon_typper::stats::{HeatmapBuilder, LiveTracker, StatisticsEngine};
use racoon_typper::typing::TextBuffer;

#[test]
fn reset_clears_tracker() {
    let mut engine = StatisticsEngine::new();
    engine.tracker.correct_chars = 10;
    engine.tracker.incorrect_chars = 5;
    engine.tracker.backspaces = 2;
    engine.tracker.total_keystrokes = 17;

    engine.reset();
    assert_eq!(engine.tracker.correct_chars, 0);
    assert_eq!(engine.tracker.incorrect_chars, 0);
    assert_eq!(engine.tracker.backspaces, 0);
    assert_eq!(engine.tracker.total_keystrokes, 0);
}

#[test]
fn live_tracker_correct() {
    let mut buf = TextBuffer::new("hello");
    let mut tracker = LiveTracker::new();

    let r = buf.process_print('h', 0);
    tracker.on_key_processed(&r, &buf);
    assert_eq!(tracker.correct_chars, 1);
    assert_eq!(tracker.total_keystrokes, 1);
}

#[test]
fn live_tracker_incorrect() {
    let mut buf = TextBuffer::new("hello");
    let mut tracker = LiveTracker::new();

    let r = buf.process_print('x', 0);
    tracker.on_key_processed(&r, &buf);
    assert_eq!(tracker.incorrect_chars, 1);
    assert_eq!(tracker.total_keystrokes, 1);
}

#[test]
fn live_tracker_backspace_correct() {
    let mut buf = TextBuffer::new("hello");
    let mut tracker = LiveTracker::new();

    let r = buf.process_print('h', 0);
    tracker.on_key_processed(&r, &buf);
    assert_eq!(tracker.correct_chars, 1);

    let r = buf.process_backspace();
    tracker.on_key_processed(&r, &buf);
    assert_eq!(tracker.backspaces, 1);
    assert_eq!(tracker.correct_chars, 0);
}

#[test]
fn live_tracker_backspace_incorrect() {
    let mut buf = TextBuffer::new("hello");
    let mut tracker = LiveTracker::new();

    let r = buf.process_print('x', 0);
    tracker.on_key_processed(&r, &buf);
    assert_eq!(tracker.incorrect_chars, 1);

    let r = buf.process_backspace();
    tracker.on_key_processed(&r, &buf);
    assert_eq!(tracker.backspaces, 1);
    assert_eq!(tracker.incorrect_chars, 0);
}

#[test]
fn heatmap_preserves_errors_after_correction() {
    let mut buf = TextBuffer::new("hello");
    buf.process_print('x', 0);
    buf.process_backspace();
    buf.process_print('h', 10);

    let heatmap = HeatmapBuilder::build(&buf);
    let h_entry = heatmap.iter().find(|(c, _)| *c == 'h').map(|(_, e)| *e).unwrap();
    assert_eq!(h_entry.total_attempts, 1);
    assert_eq!(h_entry.incorrect, 1);
    assert_eq!(h_entry.correct, 0);
}

#[test]
fn heatmap_correct_only() {
    let mut buf = TextBuffer::new("abc");
    buf.process_print('a', 0);
    buf.process_print('b', 1);
    buf.process_print('c', 2);

    let heatmap = HeatmapBuilder::build(&buf);
    assert_eq!(heatmap.len(), 3);
    for key in ['a', 'b', 'c'] {
        let entry = heatmap.iter().find(|(c, _)| *c == key).map(|(_, e)| *e).unwrap();
        assert_eq!(entry.correct, 1);
        assert_eq!(entry.incorrect, 0);
    }
}

#[test]
fn char_stats_final_only() {
    let mut buf = TextBuffer::new("ab");
    buf.process_print('a', 0);
    buf.process_print('x', 1);
    buf.process_backspace();
    buf.process_print('b', 2);

    let stats = HeatmapBuilder::build_char_stats(&buf);
    let a_stat = stats.iter().find(|(c, _)| *c == 'a').map(|(_, s)| *s).unwrap();
    assert_eq!(a_stat.correct, 1);
    let b_stat = stats.iter().find(|(c, _)| *c == 'b').map(|(_, s)| *s).unwrap();
    assert_eq!(b_stat.correct, 1);
}

#[test]
fn first_attempt_counters_keep_the_error() {
    let mut buf = TextBuffer::new("ab");
    buf.process_print('x', 0);
    buf.process_print('a', 1);
    buf.process_print('b', 2);
    assert_eq!(HeatmapBuilder::count_first_attempts(&buf), 2);
    assert_eq!(HeatmapBuilder::count_first_correct(&buf), 1);
}

#[test]
fn finalize_counts_final_statuses() {
    let mut buf = TextBuffer::new("hello");
    let mut engine = StatisticsEngine::new();
    for ch in "hello".chars() {
        let r = buf.process_print(ch, 0);
        engine.on_key_processed(&r, &buf);
    }
    let final_stats = engine.finalize(&buf, 10_000);
    assert_eq!(final_stats.correct_chars, 5);
    assert_eq!(final_stats.incorrect_chars, 0);
    assert_eq!(final_stats.backspaces, 0);
    assert_eq!(final_stats.duration_ms, 10_000);
}

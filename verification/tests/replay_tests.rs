use racoon_typper::analytics::SessionReplay;
use racoon_typper::replay::{ReplayEngine, ReplaySpeed, ReplayState};

fn make_replay() -> SessionReplay {
    let mut r = SessionReplay::new("hello".to_string());
    r.add_event(0, "h", "h", true);
    r.add_event(100, "e", "e", true);
    r.add_event(200, "l", "l", true);
    r.add_event(300, "l", "l", true);
    r.add_event(400, "o", "o", true);
    r
}

#[test]
fn replay_engine_new() {
    let engine = ReplayEngine::new(make_replay());
    assert_eq!(engine.total_frames(), 5);
    assert_eq!(engine.current_frame(), 0);
    assert!(engine.state() == &ReplayState::Paused);
}

#[test]
fn replay_play_pause() {
    let mut engine = ReplayEngine::new(make_replay());
    engine.play();
    assert!(engine.state() == &ReplayState::Playing);
    engine.pause();
    assert!(engine.state() == &ReplayState::Paused);
}

#[test]
fn replay_seek() {
    let mut engine = ReplayEngine::new(make_replay());
    engine.seek(3);
    assert_eq!(engine.current_frame(), 3);
}

#[test]
fn replay_seek_beyond_end() {
    let mut engine = ReplayEngine::new(make_replay());
    engine.seek(100);
    assert_eq!(engine.current_frame(), 4);
}

#[test]
fn replay_speed() {
    let mut engine = ReplayEngine::new(make_replay());
    engine.set_speed(ReplaySpeed::Double);
    assert_eq!(engine.speed(), ReplaySpeed::Double);
}

#[test]
fn replay_current_event() {
    let engine = ReplayEngine::new(make_replay());
    let event = engine.current_event().unwrap();
    assert_eq!(event.key, "h");
    assert!(event.correct);
}

#[test]
fn replay_advance_frame() {
    let mut engine = ReplayEngine::new(make_replay());
    assert!(engine.advance_frame());
    assert_eq!(engine.current_frame(), 1);
    let event = engine.current_event().unwrap();
    assert_eq!(event.key, "e");
}

#[test]
fn replay_advance_past_end() {
    let mut engine = ReplayEngine::new(make_replay());
    engine.seek(4);
    assert!(!engine.advance_frame());
    assert!(engine.state() == &ReplayState::Paused);
}

#[test]
fn replay_replay_empty() {
    let engine = ReplayEngine::new(SessionReplay::new("".to_string()));
    assert_eq!(engine.total_frames(), 0);
    assert!(engine.current_event().is_none());
}

#[test]
fn replay_total_duration() {
    let engine = ReplayEngine::new(make_replay());
    assert_eq!(engine.total_duration_ms(), 400);
}

#[test]
fn replay_seek_to_zero() {
    let mut engine = ReplayEngine::new(make_replay());
    engine.seek(3);
    engine.seek(0);
    assert_eq!(engine.current_frame(), 0);
}

#[test]
fn replay_advance_all_frames() {
    let mut engine = ReplayEngine::new(make_replay());
    for _ in 0..4 {
        assert!(engine.advance_frame());
    }
    assert!(!engine.advance_frame());
}

#[test]
fn replay_seek_in_empty_replay_stays_at_zero() {
    let mut engine = ReplayEngine::new(SessionReplay::new("".to_string()));
    engine.seek(7);
    assert_eq!(engine.current_frame(), 0);
    engine.play();
    assert!(!engine.advance_frame());
    assert!(engine.state() == &ReplayState::Paused);
}

use racoon_typper::domain::{CharStatus, KeyResult, SessionId, SessionState, UtcTimestamp};
use racoon_typper::engine::CoreEngine;
use racoon_typper::input::KeyEvent;
use racoon_typper::modes::{ModeConfig, ModeType, SessionMode, TimeMode};

fn make_key(key: &str, code: &str) -> KeyEvent {
    KeyEvent { key: key.to_string(), code: code.to_string(), timestamp: 100 }
}

fn time_mode(text: &str, language: &str, secs: u64) -> SessionMode {
    SessionMode::Time(TimeMode::new(text.to_string(), language.to_string(), secs))
}

fn sid(s: &str) -> SessionId {
    SessionId::from_string(s.to_string())
}

#[test]
fn start_test_with_time_mode() {
    let mut engine = CoreEngine::new();
    let info = engine
        .start_test_mode(sid("s1"), time_mode("hello", "en", 30))
        .expect("idle engine should accept a session");
    assert_eq!(info.text, "hello");
    assert_eq!(info.mode_type, "time");
    assert_eq!(info.language, "en");
    assert_eq!(info.text_length, 5);
}

#[test]
fn process_key_correct_with_mode() {
    let mut engine = CoreEngine::new();
    let _ = engine.start_test_mode(sid("s1"), time_mode("hello", "en", 30));
    let output = engine.process_key(&make_key("h", "KeyH"));
    assert_eq!(output.key_result, KeyResult::Correct);
    assert_eq!(output.caret_pos, 1);
}

#[test]
fn process_key_incorrect_with_mode() {
    let mut engine = CoreEngine::new();
    let _ = engine.start_test_mode(sid("s1"), time_mode("hello", "en", 30));
    let output = engine.process_key(&make_key("x", "KeyX"));
    assert_eq!(output.key_result, KeyResult::Incorrect);
    assert_eq!(output.caret_pos, 0);
}

#[test]
fn incorrect_key_after_progress_is_reported_as_incorrect() {
    let mut engine = CoreEngine::new();
    let _ = engine.start_test_mode(sid("s1"), time_mode("hello", "en", 30));
    engine.process_key(&make_key("h", "KeyH"));
    let output = engine.process_key(&make_key("x", "KeyX"));
    assert_eq!(output.key_result, KeyResult::Incorrect);
    assert_eq!(output.caret_pos, 1);
}

#[test]
fn backspace_with_mode() {
    let mut engine = CoreEngine::new();
    let _ = engine.start_test_mode(sid("s1"), time_mode("hello", "en", 30));
    engine.process_key(&make_key("h", "KeyH"));
    let output = engine.process_key(&make_key("Backspace", "Backspace"));
    assert_eq!(output.key_result, KeyResult::UndoneCorrect);
    assert_eq!(output.caret_pos, 0);
}

#[test]
fn backspace_at_start_is_noop_and_not_replayed() {
    let mut engine = CoreEngine::new();
    let _ = engine.start_test_mode(sid("s1"), time_mode("hello", "en", 30));
    let output = engine.process_key(&make_key("Backspace", "Backspace"));
    assert_eq!(output.key_result, KeyResult::Noop);
    assert!(engine.replay_frames().is_empty());
}

#[test]
fn full_text_completion_with_mode() {
    let mut engine = CoreEngine::new();
    let _ = engine.start_test_mode(sid("s1"), time_mode("hi", "en", 30));
    engine.process_key(&make_key("h", "KeyH"));
    let output = engine.process_key(&make_key("i", "KeyI"));
    assert!(output.test_complete.is_some());
    let stats = output.test_complete.unwrap();
    assert_eq!(stats.correct_chars, 2);
    assert_eq!(engine.session_state(), SessionState::AwaitingPersistence);
}

#[test]
fn completion_is_emitted_once_after_persistence_succeeds() {
    let mut engine = CoreEngine::new();
    let _ = engine.start_test_mode(sid("s1"), time_mode("a", "en", 30));
    let first = engine.process_key(&make_key("a", "KeyA"));
    assert!(first.test_complete.is_some());
    assert_eq!(first.session_state, SessionState::AwaitingPersistence);
    assert!(engine.begin_persistence());
    assert!(engine.mark_persisted());

    let repeated = engine.process_key(&make_key("a", "KeyA"));
    assert_eq!(repeated.session_state, SessionState::Persisted);
    assert_eq!(repeated.key_result, KeyResult::TestEnded);
    assert!(repeated.test_complete.is_none());
}

#[test]
fn failed_persistence_reuses_the_same_completed_result_for_a_retry() {
    let mut engine = CoreEngine::new();
    let _ = engine.start_test_mode(sid("s1"), time_mode("a", "en", 30));
    let first = engine.process_key(&make_key("a", "KeyA"));
    let first_stats = first.test_complete.expect("completion expected");
    let expected_timestamp = UtcTimestamp { seconds: 1_783_900_800, nanos: 0 };
    assert!(engine.set_completion_timestamp(expected_timestamp));
    let completion_timestamp = engine
        .completion_timestamp()
        .expect("completion timestamp should be captured once");
    assert!(engine.begin_persistence());
    assert!(engine.mark_persistence_failed());

    let retry = engine.process_key(&make_key("ignored", "Unidentified"));
    let retry_stats = retry.test_complete.expect("retry completion expected");
    assert_eq!(retry.session_state, SessionState::AwaitingPersistence);
    assert_eq!(retry_stats.correct_chars, first_stats.correct_chars);
    assert_eq!(retry_stats.duration_ms, first_stats.duration_ms);
    assert_eq!(engine.completion_timestamp(), Some(completion_timestamp));
}

#[test]
fn abort_is_rejected_while_persistence_is_in_flight() {
    let mut engine = CoreEngine::new();
    let _ = engine.start_test_mode(sid("s1"), time_mode("a", "en", 30));
    engine.process_key(&make_key("a", "KeyA"));
    assert!(engine.begin_persistence());
    assert!(!engine.abort());
    assert_eq!(engine.session_state(), SessionState::Persisting);
}

#[test]
fn abort_is_rejected_while_a_failed_persistence_is_retryable() {
    let mut engine = CoreEngine::new();
    let _ = engine.start_test_mode(sid("s1"), time_mode("a", "en", 30));
    engine.process_key(&make_key("a", "KeyA"));
    assert!(engine.begin_persistence());
    assert!(engine.mark_persistence_failed());
    assert!(!engine.abort());
    assert_eq!(engine.session_state(), SessionState::AwaitingPersistence);
}

#[test]
fn mode_type_accessible() {
    let mut engine = CoreEngine::new();
    let _ = engine.start_test_mode(sid("s1"), time_mode("hello", "en", 30));
    assert_eq!(engine.current_mode_type(), Some(ModeType::Time));
}

#[test]
fn mode_config_accessible() {
    let mut engine = CoreEngine::new();
    let _ = engine.start_test_mode(sid("s1"), time_mode("hello", "en", 60));
    let config = engine.current_mode_config().unwrap();
    assert_eq!(config, ModeConfig::Time { duration: 60, language: "en".to_string() });
}

#[test]
fn language_accessible() {
    let mut engine = CoreEngine::new();
    let _ = engine.start_test_mode(sid("s1"), time_mode("привет", "ru", 30));
    assert_eq!(engine.current_language(), Some("ru"));
}

#[test]
fn process_key_without_session_is_noop() {
    let mut engine = CoreEngine::new();
    let output = engine.process_key(&make_key("a", "KeyA"));
    assert_eq!(output.key_result, KeyResult::Noop);
}

#[test]
fn abort_clears_session() {
    let mut engine = CoreEngine::new();
    let _ = engine.start_test_mode(sid("s1"), time_mode("hello", "en", 30));
    assert!(engine.is_active());
    engine.abort();
    assert!(!engine.is_active());
}

#[test]
fn reset_clears_buffer() {
    let mut engine = CoreEngine::new();
    let _ = engine.start_test_mode(sid("s1"), time_mode("hello", "en", 30));
    engine.process_key(&make_key("h", "KeyH"));
    assert_eq!(engine.caret_position(), 1);
    assert!(engine.reset());
    assert_eq!(engine.caret_position(), 0);
}

#[test]
fn start_and_reset_cannot_discard_a_pending_completion() {
    let mut engine = CoreEngine::new();
    assert!(engine.start_test_mode(sid("s1"), time_mode("a", "en", 30)).is_ok());
    engine.process_key(&make_key("a", "KeyA"));
    assert_eq!(engine.session_state(), SessionState::AwaitingPersistence);

    assert!(matches!(
        engine.start_test_mode(sid("s2"), time_mode("b", "en", 30)),
        Err(SessionState::AwaitingPersistence)
    ));
    assert!(!engine.reset());
    assert_eq!(engine.session_state(), SessionState::AwaitingPersistence);

    assert!(engine.begin_persistence());
    assert!(matches!(
        engine.start_test_mode(sid("s2"), time_mode("b", "en", 30)),
        Err(SessionState::Persisting)
    ));
    assert!(!engine.reset());
}

#[test]
fn persisted_session_can_be_replaced() {
    let mut engine = CoreEngine::new();
    assert!(engine.start_test_mode(sid("s1"), time_mode("a", "en", 30)).is_ok());
    engine.process_key(&make_key("a", "KeyA"));
    assert!(engine.begin_persistence());
    assert!(engine.mark_persisted());

    let replacement = engine
        .start_test_mode(sid("s2"), time_mode("b", "en", 30))
        .expect("persisted session may be replaced");
    assert_eq!(replacement.session_id, "s2");
    assert_eq!(engine.session_state(), SessionState::Running);
}

#[test]
fn ignore_modifier_keys() {
    let mut engine = CoreEngine::new();
    let _ = engine.start_test_mode(sid("s1"), time_mode("hello", "en", 30));
    let output = engine.process_key(&make_key("Shift", "ShiftLeft"));
    assert_eq!(output.key_result, KeyResult::Noop);
}

#[test]
fn test_session_info_has_mode_info() {
    let mut engine = CoreEngine::new();
    let info = engine
        .start_test_mode(sid("s1"), time_mode("test", "en", 15))
        .expect("idle engine should accept a session");
    assert_eq!(info.mode_type, "time");
    assert_eq!(info.mode_config, ModeConfig::Time { duration: 15, language: "en".to_string() });
    assert_eq!(info.language, "en");
}

#[test]
fn session_identity_is_immutable_through_completion_retry_and_replacement() {
    let mut engine = CoreEngine::new();
    let first = engine
        .start_test_mode(sid("0b8a6f4e-first"), time_mode("a", "en", 30))
        .unwrap();
    let first_id = engine.current_session_id().cloned().unwrap();
    assert_eq!(first.session_id, first_id.to_string());

    engine.process_key(&make_key("a", "KeyA"));
    assert_eq!(engine.current_session_id(), Some(&first_id));
    assert!(engine.begin_persistence());
    assert!(engine.mark_persistence_failed());
    assert_eq!(engine.current_session_id(), Some(&first_id));
    assert!(!engine.mark_persistence_failed());
    assert!(!engine.abort());

    assert!(engine.begin_persistence());
    assert!(engine.mark_persisted());
    let replacement = engine
        .start_test_mode(sid("5c1d2e3f-second"), time_mode("b", "en", 30))
        .unwrap();
    assert_ne!(replacement.session_id, first.session_id);
}

#[test]
fn process_key_collects_authoritative_replay_frames() {
    let mut engine = CoreEngine::new();
    let _ = engine.start_test_mode(sid("s1"), time_mode("hi", "en", 30));
    engine.process_key(&KeyEvent { key: "h".to_string(), code: "KeyH".to_string(), timestamp: 1_000 });
    engine.process_key(&KeyEvent { key: "x".to_string(), code: "KeyX".to_string(), timestamp: 1_250 });

    assert_eq!(engine.replay_frames().len(), 2);
    assert_eq!(engine.replay_frames()[0].timestamp_ms, 0);
    assert_eq!(engine.replay_frames()[0].caret_pos, 1);
    assert_eq!(engine.replay_frames()[0].char_status, CharStatus::Correct);
    assert_eq!(engine.replay_frames()[1].timestamp_ms, 250);
    assert_eq!(engine.replay_frames()[1].key, "x");
    assert_eq!(engine.replay_frames()[1].char_status, CharStatus::Incorrect);
}

#[test]
fn ignored_keys_are_not_replay_frames() {
    let mut engine = CoreEngine::new();
    let _ = engine.start_test_mode(sid("s1"), time_mode("hi", "en", 30));
    engine.process_key(&make_key("Shift", "ShiftLeft"));
    assert!(engine.replay_frames().is_empty());
}

#[test]
fn stored_result_is_not_emitted_again_after_a_new_start() {
    let mut engine = CoreEngine::new();
    let _ = engine.start_test_mode(sid("s1"), time_mode("a", "en", 30));
    engine.process_key(&make_key("a", "KeyA"));
    assert!(engine.begin_persistence());
    assert!(!engine.begin_persistence());
    assert!(engine.mark_persisted());
    assert!(!engine.mark_persisted());
    let _ = engine.start_test_mode(sid("s2"), time_mode("bc", "en", 30));
    let out = engine.process_key(&make_key("b", "KeyB"));
    assert!(out.test_complete.is_none());
    assert_eq!(engine.completion_timestamp(), None);
}

#[test]
fn getters_report_the_current_session() {
    let mut engine = CoreEngine::new();
    assert_eq!(engine.current_mode_type(), None);
    assert_eq!(engine.current_language(), None);
    let _ = engine.start_test_mode(sid("s1"), time_mode("ab", "ru", 45));
    assert_eq!(engine.current_mode_type(), Some(ModeType::Time));
    assert_eq!(engine.current_language(), Some("ru"));
    assert_eq!(
        engine.current_mode_config(),
        Some(ModeConfig::Time { duration: 45, language: "ru".to_string() })
    );
    let _ = engine.process_key(&make_key("a", "KeyA"));
    let stats = engine.current_char_stats().unwrap();
    assert_eq!(stats.len(), 2);
    assert!(engine.abort());
    assert!(engine.current_session_id().is_none());
    assert!(engine.current_char_stats().is_none());
}

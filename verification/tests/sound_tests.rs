use racoon_typper::sound::{SoundEngine, SoundEvent};

#[test]
fn sound_event_as_str() {
    assert_eq!(SoundEvent::KeyPress.as_str(), "key_press");
    assert_eq!(SoundEvent::Error.as_str(), "error");
    assert_eq!(SoundEvent::LessonComplete.as_str(), "lesson_complete");
    assert_eq!(SoundEvent::AchievementUnlocked.as_str(), "achievement_unlocked");
}

#[test]
fn sound_event_durations() {
    assert_eq!(SoundEvent::KeyPress.duration_ms(), 20);
    assert_eq!(SoundEvent::Error.duration_ms(), 80);
    assert_eq!(SoundEvent::LessonComplete.duration_ms(), 300);
    assert_eq!(SoundEvent::AchievementUnlocked.duration_ms(), 500);
}

#[test]
fn sound_engine_disabled_no_play() {
    let mut engine = SoundEngine::new(false);
    assert!(!engine.try_play(SoundEvent::KeyPress, 0));
}

#[test]
fn sound_engine_cooldown() {
    let mut engine = SoundEngine::new(true);
    assert!(engine.try_play(SoundEvent::KeyPress, 0));
    assert!(!engine.try_play(SoundEvent::KeyPress, 10));
    assert!(engine.try_play(SoundEvent::KeyPress, 60));
}

#[test]
fn sound_engine_different_events_independent() {
    let mut engine = SoundEngine::new(true);
    assert!(engine.try_play(SoundEvent::KeyPress, 0));
    assert!(engine.try_play(SoundEvent::Error, 0));
}

#[test]
fn sound_engine_set_enabled() {
    let mut engine = SoundEngine::new(true);
    engine.set_enabled(false);
    assert!(!engine.try_play(SoundEvent::KeyPress, 0));
    assert!(!engine.is_enabled());
}

#[test]
fn sound_engine_reset_cooldown() {
    let mut engine = SoundEngine::new(true);
    engine.try_play(SoundEvent::KeyPress, 0);
    assert!(!engine.try_play(SoundEvent::KeyPress, 10));
    engine.reset_cooldown();
    assert!(engine.try_play(SoundEvent::KeyPress, 10));
}

#[test]
fn cooldown_boundary_and_clock_going_back() {
    let mut engine = SoundEngine::new(true);
    assert!(engine.should_play(SoundEvent::Error, 100));
    assert!(engine.try_play(SoundEvent::Error, 100));
    assert!(!engine.should_play(SoundEvent::Error, 149));
    assert!(engine.should_play(SoundEvent::Error, 150));
    assert!(!engine.should_play(SoundEvent::Error, 20));
}

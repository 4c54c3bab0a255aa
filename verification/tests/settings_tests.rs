use racoon_typper::error::DbError;
use racoon_typper::settings::{
    apply_setting, normalize_theme, validate_custom_theme_json, AppSettings, SettingValue,
};

fn message(r: Result<(), DbError>) -> String {
    match r {
        Err(DbError::Validation(m)) => m,
        other => panic!("unexpected result {:?}", other),
    }
}

#[test]
fn default_settings_values() {
    let s = AppSettings::default();
    assert_eq!(s.theme, "racoon_graphite");
    assert_eq!(s.font_size, 24);
    assert_eq!(s.caret_style, "underline");
    assert_eq!(s.caret_animation, "blink");
    assert!(s.show_live_wpm);
    assert!(!s.verbose_logging);
    assert!(!s.onboarding_completed);
    assert_eq!(s.keyboard_layout, "qwerty");
    assert_eq!(s.pomodoro_work_min, 25);
    assert_eq!(s.pomodoro_break_min, 5);
    assert_eq!(s.custom_theme_colors, "");
}

#[test]
fn legacy_and_unknown_themes_normalize() {
    assert_eq!(normalize_theme("racoon_dark"), "racoon_graphite");
    assert_eq!(normalize_theme("racoon_light"), "racoon_silver");
    assert_eq!(normalize_theme("removed_theme"), "racoon_graphite");
    assert_eq!(normalize_theme("ocean"), "ocean");
}

#[test]
fn apply_setting_updates_and_validates() {
    let mut s = AppSettings::default();
    assert!(apply_setting(&mut s, "theme", &SettingValue::Text("racoon_warm".to_string())).is_ok());
    assert_eq!(s.theme, "racoon_warm");
    assert_eq!(
        message(apply_setting(&mut s, "theme", &SettingValue::Text("racoon_dark".to_string()))),
        "Unsupported theme: racoon_dark"
    );
    assert_eq!(s.theme, "racoon_warm");
    assert!(apply_setting(&mut s, "font_size", &SettingValue::Integer(28)).is_ok());
    assert_eq!(s.font_size, 28);
    assert_eq!(
        message(apply_setting(&mut s, "font_size", &SettingValue::Integer(100))),
        "font_size must be between 12 and 72"
    );
    assert_eq!(
        message(apply_setting(&mut s, "font_size", &SettingValue::Text("big".to_string()))),
        "font_size must be an integer"
    );
    assert_eq!(s.font_size, 28);
    assert!(apply_setting(&mut s, "vim_mode", &SettingValue::Boolean(true)).is_ok());
    assert!(s.vim_mode);
    assert_eq!(
        message(apply_setting(&mut s, "vim_mode", &SettingValue::Integer(1))),
        "vim_mode must be a boolean"
    );
    assert_eq!(
        message(apply_setting(&mut s, "no_such_key", &SettingValue::Boolean(true))),
        "Unknown setting key: no_such_key"
    );
    assert!(apply_setting(&mut s, "practice_language", &SettingValue::Text("zh-hk".to_string())).is_ok());
    assert_eq!(s.practice_language, "zh-hk");
    assert!(apply_setting(&mut s, "practice_language", &SettingValue::Text("EN".to_string())).is_err());
    assert!(apply_setting(&mut s, "keyboard_layout", &SettingValue::Text("dvorak".to_string())).is_ok());
    assert!(apply_setting(&mut s, "keyboard_layout", &SettingValue::Text("azerty".to_string())).is_err());
    assert!(apply_setting(&mut s, "pomodoro_work_min", &SettingValue::Integer(0)).is_err());
    assert!(apply_setting(&mut s, "pomodoro_work_min", &SettingValue::Integer(180)).is_ok());
    assert!(apply_setting(&mut s, "daily_goal_minutes", &SettingValue::Float).is_err());
}

#[test]
fn custom_theme_colors_normalize_and_reject() {
    assert_eq!(validate_custom_theme_json("  ").unwrap(), "");
    let json = validate_custom_theme_json(
        "{\"--color-caret\": \" ##AbCdEf \", \"--color-accent\": \"123456\"}",
    )
    .unwrap();
    assert_eq!(json, "{\"--color-accent\":\"#123456\",\"--color-caret\":\"#abcdef\"}");
    let e = validate_custom_theme_json("{\"--color-unknown\": \"#ffffff\"}").unwrap_err();
    assert!(matches!(e, DbError::Validation(m) if m == "Unsupported custom theme variable: --color-unknown"));
    let e = validate_custom_theme_json("{\"--color-caret\": \"#fff\"}").unwrap_err();
    assert!(matches!(e, DbError::Validation(m) if m == "--color-caret must be a six-digit hex color like #rrggbb"));
    let e = validate_custom_theme_json("{\"--color-caret\": 5}").unwrap_err();
    assert!(matches!(e, DbError::Validation(m) if m == "--color-caret must be a hex color string"));
    let e = validate_custom_theme_json("[1]").unwrap_err();
    assert!(matches!(e, DbError::Validation(m) if m == "custom_theme_colors must be a JSON object"));
    assert!(validate_custom_theme_json("{").is_err());
}

#[test]
fn acceptance_does_not_depend_on_other_settings() {
    let mut a = AppSettings::default();
    let mut b = AppSettings::default();
    assert!(apply_setting(&mut b, "font_size", &SettingValue::Integer(40)).is_ok());
    assert!(apply_setting(&mut b, "vim_mode", &SettingValue::Boolean(true)).is_ok());
    for (key, value) in [
        ("font_size", SettingValue::Integer(99)),
        ("font_size", SettingValue::Integer(20)),
        ("keyboard_layout", SettingValue::Text("colemak".to_string())),
        ("sound_enabled", SettingValue::Integer(1)),
    ] {
        let ra = apply_setting(&mut a, key, &value);
        let rb = apply_setting(&mut b, key, &value);
        assert_eq!(ra.is_ok(), rb.is_ok());
        if ra.is_err() {
            assert_eq!(message(ra), message(rb));
        }
    }
}

#[test]
fn default_values() {
    let settings = AppSettings::default();
    assert_eq!(settings.theme, "racoon_graphite");
    assert_eq!(settings.font_size, 24);
    assert_eq!(settings.caret_style, "underline");
    assert!(settings.show_live_wpm);
    assert!(settings.show_accuracy);
}

#[test]
fn theme_normalization_is_idempotent_on_examples() {
    for t in ["racoon_dark", "racoon_light", "removed_theme", "ocean", "custom", "", "Ocean"] {
        let once = normalize_theme(t);
        assert_eq!(normalize_theme(&once), once);
    }
    assert_eq!(normalize_theme("custom"), "custom");
    assert_eq!(normalize_theme("Ocean"), "racoon_graphite");
}

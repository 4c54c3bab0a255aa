use racoon_typper::error::DbError;
use racoon_typper::profile::{
    build_import_plan, check_export_metadata, parse_profile_export, plan_collection, validate_payload,
    CustomTextExportV1, DailyStatExportV1, Finite, JsonEncoding, LessonProgressExportV1,
    PersonalBestExportV1, ProfileExportV1, ProfileImportPolicy, ProfilePayloadV1,
    StreakExportV1, TestExportV1, PROFILE_FORMAT, PROFILE_SCHEMA_VERSION,
};

fn test_row(session: &str) -> TestExportV1 {
    TestExportV1 {
        session_id: session.to_string(),
        created_at: "2026-06-01T10:00:00Z".to_string(),
        mode_type: "time".to_string(),
        mode_config: JsonEncoding::Encoded(16),
        language: "en".to_string(),
        text_length: 50,
        duration_ms: 30_000,
        wpm: Finite(true),
        raw_wpm: Finite(true),
        accuracy: Finite(true),
        raw_accuracy: Finite(true),
        consistency: Some(Finite(true)),
        correct_chars: 45,
        incorrect_chars: 5,
        backspaces: 2,
        char_stats: JsonEncoding::Encoded(2),
        heatmap_data: JsonEncoding::Encoded(2),
        graph_data: None,
        is_pb: false,
        tags: String::new(),
    }
}

fn best_row(session: Option<&str>) -> PersonalBestExportV1 {
    PersonalBestExportV1 {
        mode_type: "time".to_string(),
        mode_config_hash: "00000000000000aa".to_string(),
        mode_config: JsonEncoding::Encoded(16),
        best_wpm: Finite(true),
        best_wpm_session_id: session.map(|s| s.to_string()),
        best_accuracy: Finite(true),
        best_accuracy_session_id: None,
        best_consistency: None,
        best_consistency_session_id: None,
        updated_at: "2026-06-01T10:00:00Z".to_string(),
    }
}

fn daily_row(date: &str) -> DailyStatExportV1 {
    DailyStatExportV1 {
        date: date.to_string(),
        total_tests: 1,
        total_time_ms: 30_000,
        total_chars: 50,
        best_wpm: Finite(true),
        avg_wpm: Finite(true),
        avg_accuracy: Finite(true),
        lessons_completed: 0,
        daily_goal_met: false,
    }
}

fn streak_row(kind: &str) -> StreakExportV1 {
    StreakExportV1 {
        streak_type: kind.to_string(),
        current_streak: 1,
        longest_streak: 1,
        last_date: Some("2026-06-01".to_string()),
        started_date: Some("2026-06-01".to_string()),
    }
}

fn text_row(name: &str) -> CustomTextExportV1 {
    CustomTextExportV1 {
        name: name.to_string(),
        text: "Some practice text".to_string(),
        language: "en".to_string(),
        created_at: "2026-06-01T10:00:00Z".to_string(),
        last_used_at: None,
        use_count: 0,
    }
}

fn lesson_row(id: &str, status: &str) -> LessonProgressExportV1 {
    LessonProgressExportV1 {
        lesson_id: id.to_string(),
        module_id: "home-row".to_string(),
        language: "en".to_string(),
        difficulty: "beginner".to_string(),
        status: status.to_string(),
        best_wpm: Finite(true),
        best_accuracy: Finite(true),
        attempts: 1,
        last_attempt_at: Some("2026-06-01T10:00:00Z".to_string()),
        completed_at: None,
    }
}

fn payload() -> ProfilePayloadV1 {
    ProfilePayloadV1 {
        tests: vec![test_row("s-1"), test_row("s-2")],
        personal_bests: vec![best_row(Some("s-1"))],
        daily_stats: vec![daily_row("2026-06-01")],
        streaks: vec![streak_row("daily_test")],
        custom_texts: vec![text_row("Mine")],
        lesson_progress: vec![lesson_row("l-1", "completed")],
    }
}

fn export(p: ProfilePayloadV1) -> ProfileExportV1 {
    ProfileExportV1 {
        format: PROFILE_FORMAT.to_string(),
        schema_version: PROFILE_SCHEMA_VERSION,
        exported_at: "2026-06-02T08:00:00Z".to_string(),
        application_version: "0.1.0".to_string(),
        profile: p,
    }
}

fn message(r: Result<(), DbError>) -> String {
    match r {
        Err(DbError::Validation(m)) => m,
        other => panic!("unexpected {:?}", other),
    }
}

#[test]
fn a_consistent_payload_validates() {
    assert!(validate_payload(&payload()).is_ok());
    let empty = ProfilePayloadV1 {
        tests: vec![],
        personal_bests: vec![],
        daily_stats: vec![],
        streaks: vec![],
        custom_texts: vec![],
        lesson_progress: vec![],
    };
    assert!(validate_payload(&empty).is_ok());
}

#[test]
fn duplicate_sessions_are_rejected() {
    let mut p = payload();
    p.tests.push(test_row("s-1"));
    assert_eq!(message(validate_payload(&p)), "Profile contains duplicate test session IDs");
}

#[test]
fn test_rows_are_checked_field_by_field() {
    let mut p = payload();
    p.tests[1].created_at = "yesterday".to_string();
    assert_eq!(message(validate_payload(&p)), "test.created_at must be an RFC 3339 timestamp");
    let mut p = payload();
    p.tests[0].session_id = "   ".to_string();
    assert_eq!(
        message(validate_payload(&p)),
        "test.session_id must be non-empty and at most 128 characters"
    );
    let mut p = payload();
    p.tests[0].wpm = Finite(false);
    assert_eq!(message(validate_payload(&p)), "test.wpm must be finite");
    let mut p = payload();
    p.tests[0].backspaces = -1;
    assert_eq!(message(validate_payload(&p)), "Profile contains a negative counter");
    let mut p = payload();
    p.tests[0].char_stats = JsonEncoding::Encoded(2 * 1024 * 1024);
    assert_eq!(message(validate_payload(&p)), "test.char_stats exceeds the 1048576-byte limit");
    let mut p = payload();
    p.tests[0].graph_data = Some(JsonEncoding::Failed("bad number".to_string()));
    assert_eq!(message(validate_payload(&p)), "test.graph_data cannot be encoded: bad number");
}

#[test]
fn personal_bests_must_reference_profile_tests() {
    let mut p = payload();
    p.personal_bests = vec![best_row(Some("missing"))];
    assert_eq!(
        message(validate_payload(&p)),
        "Personal-best test reference is not present in the profile"
    );
    let mut p = payload();
    p.personal_bests = vec![best_row(None), best_row(None)];
    assert_eq!(message(validate_payload(&p)), "Profile contains duplicate personal best identities");
}

#[test]
fn daily_streak_text_and_lesson_rows_are_checked() {
    let mut p = payload();
    p.daily_stats.push(daily_row("2026-06-01"));
    assert_eq!(message(validate_payload(&p)), "Profile contains duplicate daily-stat dates");
    let mut p = payload();
    p.daily_stats = vec![daily_row("2026-13-40")];
    assert_eq!(message(validate_payload(&p)), "daily_stat.date must be an ISO calendar date");
    let mut p = payload();
    p.streaks.push(streak_row("daily_test"));
    assert_eq!(message(validate_payload(&p)), "Profile contains duplicate streak types");
    let mut p = payload();
    p.custom_texts.push(text_row("Mine"));
    assert_eq!(message(validate_payload(&p)), "Profile contains duplicate custom-text identities");
    let mut p = payload();
    p.lesson_progress = vec![lesson_row("l-1", "done")];
    assert_eq!(message(validate_payload(&p)), "Unsupported lesson status");
    let mut p = payload();
    p.lesson_progress.push(lesson_row("l-1", "in_progress"));
    assert_eq!(message(validate_payload(&p)), "Profile contains duplicate lesson IDs");
}

#[test]
fn collections_have_a_row_limit() {
    let mut p = payload();
    p.streaks = (0..100_001).map(|i| streak_row(&format!("s{}", i))).collect();
    assert_eq!(
        message(validate_payload(&p)),
        "Profile streaks collection exceeds the 100000-row limit"
    );
}

#[test]
fn documents_are_checked_before_the_payload() {
    let doc = b"{}";
    let ok = parse_profile_export(doc, Ok(export(payload()))).unwrap();
    assert_eq!(ok.application_version, "0.1.0");
    match parse_profile_export(doc, Err("expected value at line 1".to_string())) {
        Err(DbError::Validation(m)) => assert_eq!(m, "Invalid profile document: expected value at line 1"),
        other => panic!("unexpected {:?}", other.map(|_| ())),
    }
    let mut wrong = export(payload());
    wrong.format = "something-else".to_string();
    match parse_profile_export(doc, Ok(wrong)) {
        Err(DbError::Validation(m)) => assert_eq!(m, "Unsupported profile format"),
        other => panic!("unexpected {:?}", other.map(|_| ())),
    }
    let mut newer = export(payload());
    newer.schema_version = 2;
    match parse_profile_export(doc, Ok(newer)) {
        Err(DbError::Validation(m)) => assert_eq!(m, "Unsupported profile schema version: 2"),
        other => panic!("unexpected {:?}", other.map(|_| ())),
    }
    let mut stamped = export(payload());
    stamped.exported_at = "not a time".to_string();
    match parse_profile_export(doc, Ok(stamped)) {
        Err(DbError::Validation(m)) => assert_eq!(m, "exported_at must be an RFC 3339 timestamp"),
        other => panic!("unexpected {:?}", other.map(|_| ())),
    }
}

#[test]
fn import_plans_count_new_rows() {
    let c = plan_collection(10, 4);
    assert_eq!((c.incoming, c.existing, c.to_insert), (10, 4, 6));
    assert_eq!(plan_collection(3, 5).to_insert, 0);
    let p = payload();
    let merge = build_import_plan(&p, [1, 0, 1, 0, 2, 0], ProfileImportPolicy::Merge);
    assert_eq!(merge.tests.to_insert, 1);
    assert_eq!(merge.daily_stats.to_insert, 0);
    assert_eq!(merge.custom_texts.to_insert, 0);
    assert_eq!(merge.lesson_progress.to_insert, 1);
    let replace = build_import_plan(&p, [1, 0, 1, 0, 2, 0], ProfileImportPolicy::Replace);
    assert_eq!(replace.tests.to_insert, 2);
    assert_eq!(replace.daily_stats.to_insert, 1);
    assert_eq!(replace.custom_texts.existing, 2);
    assert_eq!(replace.policy, ProfileImportPolicy::Replace);
}

#[test]
fn export_metadata_is_checked_in_order() {
    assert!(check_export_metadata("1.2.0", "2024-05-01T10:00:00Z").is_ok());
    match check_export_metadata(" ", "not a time") {
        Err(DbError::Validation(m)) => {
            assert_eq!(m, "application_version must be non-empty and at most 256 characters")
        }
        other => panic!("unexpected {:?}", other),
    }
    match check_export_metadata("1.2.0", "not a time") {
        Err(DbError::Validation(m)) => assert_eq!(m, "exported_at must be an RFC 3339 timestamp"),
        other => panic!("unexpected {:?}", other),
    }
}

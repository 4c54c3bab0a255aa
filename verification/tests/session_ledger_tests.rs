use racoon_typper::error::DbError;
use racoon_typper::finalization::{DurableSessionState, QuarantineReason};
use racoon_typper::session_ledger::{
    compare_stored_intent, confirm_awaiting, decide_record_intent, decide_record_started,
    decide_load_intent, decide_transition, DecodedIntent, IntentLoadOutcome, StateTransitionVerdict,
    TransitionWrite,
    metadata_quarantine_reason, start_fields_acceptable, IncomingIntent, IntentMetadata,
    IntentWrite, LedgerConflict, LedgerMutationOutcome, StartWrite, StartedRecord,
    StoredIntentFacts,
};

fn started(state: Option<DurableSessionState>, descriptor_matches: bool) -> StartedRecord {
    StartedRecord {
        state,
        mode_type: "time".to_string(),
        language: "en".to_string(),
        started_at: "2026-06-01T10:00:00.000000Z".to_string(),
        descriptor_matches,
    }
}

fn incoming() -> IncomingIntent {
    IncomingIntent {
        session_id: "s-1".to_string(),
        fingerprint: "ab12".to_string(),
        canonical_payload: vec![1, 2, 3],
    }
}

fn stored_like(i: &IncomingIntent) -> StoredIntentFacts {
    StoredIntentFacts {
        metadata: IntentMetadata::Present {
            session_id: Some(i.session_id.clone()),
            fingerprint: Some(i.fingerprint.clone()),
        },
        payload: Some(i.canonical_payload.clone()),
        recorded_length: Some(i.canonical_payload.len()),
        decoded_session_id: Some(i.session_id.clone()),
    }
}

fn quarantined(o: &LedgerMutationOutcome) -> Option<QuarantineReason> {
    match o {
        LedgerMutationOutcome::Quarantined(r) => Some(*r),
        _ => None,
    }
}

#[test]
fn start_fields_have_byte_limits() {
    assert!(start_fields_acceptable("time", "en"));
    assert!(!start_fields_acceptable("", "en"));
    assert!(!start_fields_acceptable("time", ""));
    assert!(!start_fields_acceptable(&"x".repeat(65), "en"));
    assert!(start_fields_acceptable(&"x".repeat(64), &"y".repeat(64)));
    assert!(!start_fields_acceptable("time", &"é".repeat(33)));
}

#[test]
fn a_new_start_is_inserted_and_repeats_are_identical() {
    let (o, w) = decide_record_started("s-1", &None, "time", "en", "2026-06-01T10:00:00.000000Z");
    assert!(matches!(o, LedgerMutationOutcome::Created));
    assert_eq!(w, StartWrite::InsertRunning);
    let existing = Some(started(Some(DurableSessionState::Running), true));
    let (o, w) = decide_record_started("s-1", &existing, "time", "en", "2026-06-01T10:00:00.000000Z");
    assert!(matches!(o, LedgerMutationOutcome::AlreadyExistsIdentical));
    assert_eq!(w, StartWrite::Keep);
}

#[test]
fn a_different_start_conflicts() {
    let existing = Some(started(Some(DurableSessionState::Running), false));
    let (o, _) = decide_record_started("s-1", &existing, "time", "en", "2026-06-01T10:00:00.000000Z");
    match o {
        LedgerMutationOutcome::Conflicting(LedgerConflict::SessionStart(s)) => assert_eq!(s, "s-1"),
        other => panic!("unexpected {:?}", other),
    }
    let finished = Some(started(Some(DurableSessionState::Finalized), true));
    let (o, _) = decide_record_started("s-1", &finished, "time", "en", "2026-06-01T10:00:00.000000Z");
    assert!(matches!(o, LedgerMutationOutcome::Conflicting(_)));
    let unreadable = Some(started(None, true));
    let (o, _) = decide_record_started("s-1", &unreadable, "time", "en", "2026-06-01T10:00:00.000000Z");
    assert_eq!(quarantined(&o), Some(QuarantineReason::InvalidStateRecord));
}

#[test]
fn a_running_session_takes_its_intent() {
    let i = incoming();
    let (o, w) = decide_record_intent(Some(Some(DurableSessionState::Running)), &None, &i);
    assert!(matches!(o, LedgerMutationOutcome::Created));
    assert_eq!(w, IntentWrite::InsertAndAwait);
    let (o, w) = decide_record_intent(Some(Some(DurableSessionState::AwaitingPersistence)), &Some(stored_like(&i)), &i);
    assert!(matches!(o, LedgerMutationOutcome::AlreadyExistsIdentical));
    assert_eq!(w, IntentWrite::Keep);
    let (o, _) = decide_record_intent(None, &None, &i);
    assert!(matches!(o, LedgerMutationOutcome::NotFound));
}

#[test]
fn intents_without_a_running_session_are_quarantined() {
    let i = incoming();
    let (o, w) = decide_record_intent(Some(Some(DurableSessionState::AwaitingPersistence)), &None, &i);
    assert_eq!(quarantined(&o), Some(QuarantineReason::MissingCompletionIntent));
    assert_eq!(w, IntentWrite::QuarantineRow(QuarantineReason::MissingCompletionIntent));
    let (o, w) = decide_record_intent(Some(Some(DurableSessionState::Aborted)), &None, &i);
    assert_eq!(quarantined(&o), Some(QuarantineReason::InvalidStateRecord));
    assert_eq!(w, IntentWrite::Keep);
    let (o, w) = decide_record_intent(Some(None), &None, &i);
    assert_eq!(quarantined(&o), Some(QuarantineReason::InvalidStateRecord));
    assert_eq!(w, IntentWrite::QuarantineRow(QuarantineReason::InvalidStateRecord));
}

#[test]
fn stored_intents_are_compared_strictly() {
    let i = incoming();
    let mut other_fp = stored_like(&i);
    other_fp.metadata = IntentMetadata::Present {
        session_id: Some("s-1".to_string()),
        fingerprint: Some("ff00".to_string()),
    };
    match compare_stored_intent(&other_fp, &i) {
        LedgerMutationOutcome::Conflicting(LedgerConflict::CompletionIntent(c)) => {
            assert_eq!(c.existing_fingerprint, "ff00");
            assert_eq!(c.incoming_fingerprint, "ab12");
            assert_eq!(c.existing_session_id, "s-1");
        }
        other => panic!("unexpected {:?}", other),
    }
    let mut other_bytes = stored_like(&i);
    other_bytes.payload = Some(vec![1, 2, 4]);
    assert_eq!(quarantined(&compare_stored_intent(&other_bytes, &i)), Some(QuarantineReason::CorruptCompletionPayload));
    let mut short = stored_like(&i);
    short.recorded_length = Some(2);
    assert_eq!(quarantined(&compare_stored_intent(&short, &i)), Some(QuarantineReason::CorruptCompletionPayload));
    let mut undecodable = stored_like(&i);
    undecodable.decoded_session_id = None;
    assert_eq!(quarantined(&compare_stored_intent(&undecodable, &i)), Some(QuarantineReason::CorruptCompletionPayload));
    let mut elsewhere = stored_like(&i);
    elsewhere.decoded_session_id = Some("s-2".to_string());
    assert_eq!(quarantined(&compare_stored_intent(&elsewhere, &i)), Some(QuarantineReason::InconsistentDurableMetadata));
    let mut missing = stored_like(&i);
    missing.metadata = IntentMetadata::UnsupportedVersion;
    assert_eq!(quarantined(&compare_stored_intent(&missing, &i)), Some(QuarantineReason::UnsupportedIntentVersion));
}

#[test]
fn header_reasons() {
    assert_eq!(metadata_quarantine_reason(&IntentMetadata::Missing), QuarantineReason::MissingCompletionIntent);
    assert_eq!(
        metadata_quarantine_reason(&IntentMetadata::UnsupportedCanonicalizationVersion),
        QuarantineReason::UnsupportedCanonicalizationVersion
    );
    assert_eq!(metadata_quarantine_reason(&IntentMetadata::Corrupt), QuarantineReason::CorruptCompletionPayload);
}

#[test]
fn awaiting_update_must_change_one_row() {
    assert!(confirm_awaiting(1).is_ok());
    match confirm_awaiting(0) {
        Err(DbError::Integrity(m)) => assert_eq!(m, "session state changed during completion intent recording"),
        other => panic!("unexpected {:?}", other),
    }
}

#[test]
fn transition_of_missing_session_is_not_found() {
    let (o, w) = decide_transition(None, DurableSessionState::Aborted, StateTransitionVerdict::Valid);
    assert!(matches!(o, LedgerMutationOutcome::NotFound));
    assert_eq!(w, TransitionWrite::Nothing);
}

#[test]
fn unreadable_state_quarantines_the_row() {
    let (o, w) = decide_transition(Some(None), DurableSessionState::Interrupted, StateTransitionVerdict::Valid);
    assert!(matches!(o, LedgerMutationOutcome::Quarantined(QuarantineReason::InvalidStateRecord)));
    assert_eq!(w, TransitionWrite::QuarantineRow(QuarantineReason::InvalidStateRecord));
}

#[test]
fn verdict_decides_the_transition() {
    let stored = Some(Some(DurableSessionState::Running));
    let (o, w) = decide_transition(stored, DurableSessionState::Aborted, StateTransitionVerdict::Valid);
    assert!(matches!(o, LedgerMutationOutcome::Created));
    assert_eq!(w, TransitionWrite::SetState(DurableSessionState::Aborted));
    let (o, w) = decide_transition(stored, DurableSessionState::Running, StateTransitionVerdict::Idempotent);
    assert!(matches!(o, LedgerMutationOutcome::AlreadyExistsIdentical));
    assert_eq!(w, TransitionWrite::Nothing);
    for v in [StateTransitionVerdict::Invalid, StateTransitionVerdict::ForbiddenFromTerminal] {
        let (o, w) = decide_transition(Some(Some(DurableSessionState::Finalized)), DurableSessionState::Aborted, v);
        assert!(matches!(o, LedgerMutationOutcome::Quarantined(QuarantineReason::InvalidStateRecord)));
        assert_eq!(w, TransitionWrite::Nothing);
    }
}

#[test]
fn loading_finds_a_sound_intent() {
    let i = incoming();
    let s = stored_like(&i);
    let decoded = DecodedIntent::Decoded(i.session_id.clone());
    assert_eq!(decide_load_intent(Some(&s), &i.session_id, 1024, &decoded).unwrap(), IntentLoadOutcome::Found);
    assert_eq!(decide_load_intent(None, &i.session_id, 1024, &decoded).unwrap(), IntentLoadOutcome::NotFound);
}

#[test]
fn loading_reports_each_defect() {
    let i = incoming();
    let decoded = DecodedIntent::Decoded(i.session_id.clone());
    // a payload over the limit
    let s = stored_like(&i);
    assert_eq!(decide_load_intent(Some(&s), &i.session_id, 1, &decoded).unwrap(), IntentLoadOutcome::Corrupt);
    // a header for another session
    let other = DecodedIntent::Decoded("other".to_string());
    assert_eq!(
        decide_load_intent(Some(&s), "other", 1024, &other).unwrap(),
        IntentLoadOutcome::Quarantined(QuarantineReason::InconsistentDurableMetadata)
    );
    // a payload that decodes to another session
    assert_eq!(
        decide_load_intent(Some(&s), &i.session_id, 1024, &other).unwrap(),
        IntentLoadOutcome::Quarantined(QuarantineReason::InconsistentDurableMetadata)
    );
    // unsupported versions and corrupt payloads
    assert_eq!(
        decide_load_intent(Some(&s), &i.session_id, 1024, &DecodedIntent::UnsupportedVersion).unwrap(),
        IntentLoadOutcome::UnsupportedVersion
    );
    assert_eq!(
        decide_load_intent(Some(&s), &i.session_id, 1024, &DecodedIntent::Corrupt).unwrap(),
        IntentLoadOutcome::Corrupt
    );
    // a recorded length that disagrees
    let mut bad = stored_like(&i);
    bad.recorded_length = Some(bad.payload.as_ref().unwrap().len() + 1);
    assert_eq!(decide_load_intent(Some(&bad), &i.session_id, 1024, &decoded).unwrap(), IntentLoadOutcome::Corrupt);
    // headers
    let mut h = stored_like(&i);
    h.metadata = IntentMetadata::UnsupportedCanonicalizationVersion;
    assert_eq!(
        decide_load_intent(Some(&h), &i.session_id, 1024, &decoded).unwrap(),
        IntentLoadOutcome::UnsupportedCanonicalizationVersion
    );
    h.metadata = IntentMetadata::Missing;
    assert_eq!(decide_load_intent(Some(&h), &i.session_id, 1024, &decoded).unwrap(), IntentLoadOutcome::Corrupt);
    h.metadata = IntentMetadata::Present { session_id: Some(i.session_id.clone()), fingerprint: None };
    match decide_load_intent(Some(&h), &i.session_id, 1024, &decoded) {
        Err(DbError::Integrity(m)) => assert_eq!(m, "missing parsed fingerprint"),
        other => panic!("unexpected {:?}", other),
    }
}

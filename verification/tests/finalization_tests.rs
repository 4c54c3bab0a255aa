use racoon_typper::error::DbError;
use racoon_typper::finalization::{
    completion_amounts, confirm_ledger_write, confirm_record_committed, confirm_session_finalized,
    decide_claim, decide_commit, decide_load, decide_quarantine, finalization_gate, inject,
    settle_committed, settle_pending, DurableSessionState, FinalizationCommitOutcome,
    FinalizationGate, FinalizationLedgerClaimOutcome, FinalizationLedgerState,
    FinalizationLoadOutcome, FinalizationOutcome, FinalizationQuarantineReason,
    FinalizationRecord, FinalizerCrashCheckpoint, FinalizerFailurePoint, IntentFingerprint,
    LedgerWrite, QuarantineReason, RecordState, StoredFinalization, StoredIntent,
};

const SID: &str = "session-1";
const FP: &str = "aaaa";
const OTHER: &str = "bbbb";

fn pending_state() -> Option<Option<DurableSessionState>> {
    Some(Some(DurableSessionState::FinalizationPending))
}

fn record(fp: &str, state: RecordState) -> StoredFinalization {
    StoredFinalization::Found(FinalizationRecord {
        fingerprint: fp.to_string(),
        state,
    })
}

fn intent(fp: &str) -> IntentFingerprint {
    IntentFingerprint::Found(fp.to_string())
}

fn integrity(e: DbError) -> String {
    match e {
        DbError::Integrity(m) => m,
        other => panic!("unexpected error {:?}", other),
    }
}

#[test]
fn session_state_names_round_trip() {
    for s in [
        DurableSessionState::Running,
        DurableSessionState::AwaitingPersistence,
        DurableSessionState::FinalizationPending,
        DurableSessionState::Finalized,
        DurableSessionState::Aborted,
        DurableSessionState::Interrupted,
        DurableSessionState::Quarantined,
    ] {
        assert_eq!(DurableSessionState::from_storage_name(s.storage_name()), Some(s));
    }
    assert_eq!(DurableSessionState::FinalizationPending.storage_name(), "finalization_pending");
    assert_eq!(DurableSessionState::from_storage_name("done"), None);
}

#[test]
fn ledger_names_round_trip() {
    assert_eq!(FinalizationLedgerState::from_storage_name("committed"), Some(FinalizationLedgerState::Committed));
    assert_eq!(FinalizationLedgerState::Pending.storage_name(), "pending");
    assert_eq!(FinalizationLedgerState::from_storage_name("Pending"), None);
    assert_eq!(
        FinalizationQuarantineReason::from_storage_name("fingerprint_mismatch"),
        Some(FinalizationQuarantineReason::FingerprintMismatch)
    );
    assert_eq!(FinalizationQuarantineReason::from_storage_name(""), None);
    assert_eq!(QuarantineReason::InconsistentDurableMetadata.storage_name(), "inconsistent_durable_metadata");
}

#[test]
fn claim_inserts_a_pending_record_once() {
    let (o, w) = decide_claim(SID, FP, pending_state(), &intent(FP), &StoredFinalization::Missing);
    assert!(matches!(o, FinalizationLedgerClaimOutcome::Claimed));
    assert_eq!(w, LedgerWrite::InsertPending);
    let (o, w) = decide_claim(SID, FP, pending_state(), &intent(FP), &record(FP, RecordState::Pending));
    assert!(matches!(o, FinalizationLedgerClaimOutcome::AlreadyPending));
    assert_eq!(w, LedgerWrite::Keep);
    let (o, _) = decide_claim(SID, FP, pending_state(), &intent(FP), &record(FP, RecordState::Committed));
    assert!(matches!(o, FinalizationLedgerClaimOutcome::AlreadyCommitted));
}

#[test]
fn claim_reports_missing_sessions_and_intents() {
    let (o, _) = decide_claim(SID, FP, None, &intent(FP), &StoredFinalization::Missing);
    assert!(matches!(o, FinalizationLedgerClaimOutcome::NotFound));
    let (o, _) = decide_claim(SID, FP, Some(Some(DurableSessionState::Running)), &intent(FP), &StoredFinalization::Missing);
    assert!(matches!(
        o,
        FinalizationLedgerClaimOutcome::Quarantined(FinalizationQuarantineReason::InvalidFinalizationState)
    ));
    let (o, _) = decide_claim(SID, FP, Some(None), &intent(FP), &StoredFinalization::Missing);
    assert!(matches!(
        o,
        FinalizationLedgerClaimOutcome::Quarantined(FinalizationQuarantineReason::InvalidFinalizationState)
    ));
    let (o, _) = decide_claim(SID, FP, pending_state(), &IntentFingerprint::Missing, &StoredFinalization::Missing);
    assert!(matches!(o, FinalizationLedgerClaimOutcome::MissingCompletionIntent));
    let (o, _) = decide_claim(SID, FP, pending_state(), &IntentFingerprint::Corrupt, &StoredFinalization::Missing);
    assert!(matches!(
        o,
        FinalizationLedgerClaimOutcome::Quarantined(FinalizationQuarantineReason::CorruptDurableMetadata)
    ));
    let (o, _) = decide_claim(SID, FP, pending_state(), &intent(FP), &StoredFinalization::Corrupt);
    assert!(matches!(o, FinalizationLedgerClaimOutcome::Corrupt));
}

#[test]
fn claim_with_another_fingerprint_is_a_conflict() {
    let (o, w) = decide_claim(SID, FP, pending_state(), &intent(OTHER), &StoredFinalization::Missing);
    assert_eq!(w, LedgerWrite::Keep);
    match o {
        FinalizationLedgerClaimOutcome::Conflict(c) => {
            assert_eq!(c.session_id, SID);
            assert_eq!(c.expected_fingerprint, FP);
            assert_eq!(c.stored_fingerprint, OTHER);
        }
        other => panic!("unexpected {:?}", other),
    }
    let (o, _) = decide_claim(SID, FP, pending_state(), &intent(FP), &record(OTHER, RecordState::Pending));
    match o {
        FinalizationLedgerClaimOutcome::Conflict(c) => assert_eq!(c.stored_fingerprint, OTHER),
        other => panic!("unexpected {:?}", other),
    }
}

#[test]
fn claim_reports_a_quarantined_record_with_its_reason() {
    let (o, w) = decide_claim(
        SID,
        FP,
        pending_state(),
        &intent(FP),
        &record(FP, RecordState::Quarantined(FinalizationQuarantineReason::FingerprintMismatch)),
    );
    assert!(matches!(
        o,
        FinalizationLedgerClaimOutcome::Quarantined(FinalizationQuarantineReason::FingerprintMismatch)
    ));
    assert_eq!(w, LedgerWrite::Keep);
}

#[test]
fn commit_moves_only_a_pending_record() {
    let (o, w) = decide_commit(SID, FP, pending_state(), &intent(FP), &record(FP, RecordState::Pending));
    assert!(matches!(o, FinalizationCommitOutcome::Committed));
    assert_eq!(w, LedgerWrite::MarkCommitted);
    let (o, w) = decide_commit(SID, FP, pending_state(), &intent(FP), &record(FP, RecordState::Committed));
    assert!(matches!(o, FinalizationCommitOutcome::AlreadyCommitted));
    assert_eq!(w, LedgerWrite::Keep);
    let (o, _) = decide_commit(SID, FP, pending_state(), &intent(FP), &StoredFinalization::Missing);
    assert!(matches!(o, FinalizationCommitOutcome::NotFound));
    let (o, _) = decide_commit(SID, FP, pending_state(), &IntentFingerprint::Missing, &record(FP, RecordState::Pending));
    assert!(matches!(
        o,
        FinalizationCommitOutcome::Quarantined(FinalizationQuarantineReason::MissingCompletionIntent)
    ));
    let (o, w) = decide_commit(SID, FP, pending_state(), &intent(OTHER), &record(FP, RecordState::Pending));
    assert!(matches!(o, FinalizationCommitOutcome::Conflict(_)));
    assert_eq!(w, LedgerWrite::Keep);
}

#[test]
fn quarantine_prefers_the_durable_reason() {
    let (o, w) = decide_quarantine(
        SID,
        FP,
        FinalizationQuarantineReason::InvalidFinalizationState,
        &IntentFingerprint::Missing,
        &record(FP, RecordState::Pending),
    );
    assert!(matches!(
        o,
        FinalizationCommitOutcome::Quarantined(FinalizationQuarantineReason::MissingCompletionIntent)
    ));
    assert_eq!(w, LedgerWrite::MarkQuarantined(FinalizationQuarantineReason::MissingCompletionIntent));
    let (_, w) = decide_quarantine(
        SID,
        FP,
        FinalizationQuarantineReason::InvalidFinalizationState,
        &intent(OTHER),
        &record(FP, RecordState::Pending),
    );
    assert_eq!(w, LedgerWrite::MarkQuarantined(FinalizationQuarantineReason::FingerprintMismatch));
    let (_, w) = decide_quarantine(
        SID,
        FP,
        FinalizationQuarantineReason::InvalidFinalizationState,
        &intent(FP),
        &record(FP, RecordState::Pending),
    );
    assert_eq!(w, LedgerWrite::MarkQuarantined(FinalizationQuarantineReason::InvalidFinalizationState));
}

#[test]
fn quarantine_keeps_terminal_records() {
    let (o, w) = decide_quarantine(
        SID,
        FP,
        FinalizationQuarantineReason::CorruptDurableMetadata,
        &IntentFingerprint::Corrupt,
        &record(FP, RecordState::Committed),
    );
    assert!(matches!(
        o,
        FinalizationCommitOutcome::NotPending { state: FinalizationLedgerState::Committed }
    ));
    assert_eq!(w, LedgerWrite::Keep);
    let (o, w) = decide_quarantine(
        SID,
        FP,
        FinalizationQuarantineReason::CorruptDurableMetadata,
        &intent(FP),
        &record(FP, RecordState::Quarantined(FinalizationQuarantineReason::MissingCompletionIntent)),
    );
    assert!(matches!(
        o,
        FinalizationCommitOutcome::Quarantined(FinalizationQuarantineReason::MissingCompletionIntent)
    ));
    assert_eq!(w, LedgerWrite::Keep);
}

#[test]
fn load_trusts_only_a_record_matching_the_intent() {
    match decide_load(&intent(FP), record(FP, RecordState::Committed)) {
        FinalizationLoadOutcome::Found(r) => {
            assert_eq!(r.fingerprint, FP);
            assert_eq!(r.state, RecordState::Committed);
        }
        other => panic!("unexpected {:?}", other),
    }
    assert!(matches!(decide_load(&intent(OTHER), record(FP, RecordState::Committed)), FinalizationLoadOutcome::Corrupt));
    assert!(matches!(decide_load(&IntentFingerprint::Missing, record(FP, RecordState::Pending)), FinalizationLoadOutcome::Corrupt));
    assert!(matches!(decide_load(&intent(FP), StoredFinalization::Missing), FinalizationLoadOutcome::NotFound));
}

#[test]
fn ledger_writes_must_find_their_pending_row() {
    assert!(confirm_ledger_write(LedgerWrite::MarkCommitted, 1).is_ok());
    assert_eq!(
        integrity(confirm_ledger_write(LedgerWrite::MarkCommitted, 0).unwrap_err()),
        "finalization commit lost its pending record"
    );
    assert_eq!(
        integrity(
            confirm_ledger_write(LedgerWrite::MarkQuarantined(FinalizationQuarantineReason::FingerprintMismatch), 2)
                .unwrap_err()
        ),
        "finalization corruption quarantine lost its pending record"
    );
    assert!(confirm_ledger_write(LedgerWrite::InsertPending, 0).is_ok());
    assert!(confirm_ledger_write(LedgerWrite::Keep, 7).is_ok());
}

#[test]
fn finalizer_gate_applies_effects_to_a_pending_claim() {
    let g = finalization_gate(
        SID,
        FP,
        Some(DurableSessionState::FinalizationPending),
        &StoredIntent::Found(FP.to_string()),
        &record(FP, RecordState::Pending),
    );
    assert!(matches!(g, FinalizationGate::RequireNoStoredTest));
    assert!(settle_pending(false).is_none());
    assert!(matches!(
        settle_pending(true),
        Some(FinalizationOutcome::Quarantined(QuarantineReason::InconsistentDurableMetadata))
    ));
}

#[test]
fn finalizer_retry_reports_already_finalized() {
    let g = finalization_gate(
        SID,
        FP,
        Some(DurableSessionState::Finalized),
        &StoredIntent::Found(FP.to_string()),
        &record(FP, RecordState::Committed),
    );
    assert!(matches!(g, FinalizationGate::VerifyStoredTest));
    assert!(matches!(settle_committed(Some(true)), FinalizationOutcome::AlreadyFinalized));
    assert!(matches!(
        settle_committed(Some(false)),
        FinalizationOutcome::Quarantined(QuarantineReason::InconsistentDurableMetadata)
    ));
    assert!(matches!(
        settle_committed(None),
        FinalizationOutcome::Quarantined(QuarantineReason::InconsistentDurableMetadata)
    ));
}

#[test]
fn finalizer_gate_reports_unusable_intents() {
    let cases = [
        (StoredIntent::Missing, QuarantineReason::MissingCompletionIntent),
        (StoredIntent::UnsupportedCanonicalization, QuarantineReason::UnsupportedCanonicalizationVersion),
        (StoredIntent::UnsupportedVersion, QuarantineReason::UnsupportedIntentVersion),
        (StoredIntent::Corrupt, QuarantineReason::CorruptCompletionPayload),
    ];
    for (stored, reason) in cases {
        let g = finalization_gate(SID, FP, Some(DurableSessionState::FinalizationPending), &stored, &record(FP, RecordState::Pending));
        match g {
            FinalizationGate::Finish(FinalizationOutcome::Quarantined(r)) => assert_eq!(r, reason),
            other => panic!("unexpected {:?}", other),
        }
    }
    let g = finalization_gate(SID, FP, None, &StoredIntent::Missing, &StoredFinalization::Missing);
    assert!(matches!(g, FinalizationGate::Finish(FinalizationOutcome::NotFound)));
}

#[test]
fn finalizer_gate_quarantines_inconsistent_metadata() {
    let found = StoredIntent::Found(FP.to_string());
    for (state, rec) in [
        (DurableSessionState::FinalizationPending, record(FP, RecordState::Committed)),
        (DurableSessionState::Finalized, record(FP, RecordState::Pending)),
        (DurableSessionState::Running, record(FP, RecordState::Pending)),
        (
            DurableSessionState::FinalizationPending,
            record(FP, RecordState::Quarantined(FinalizationQuarantineReason::FingerprintMismatch)),
        ),
        (DurableSessionState::FinalizationPending, StoredFinalization::Missing),
        (DurableSessionState::FinalizationPending, StoredFinalization::Corrupt),
    ] {
        let g = finalization_gate(SID, FP, Some(state), &found, &rec);
        assert!(matches!(
            g,
            FinalizationGate::Finish(FinalizationOutcome::Quarantined(QuarantineReason::InconsistentDurableMetadata))
        ));
    }
}

#[test]
fn finalizer_gate_reports_fingerprint_conflicts() {
    let g = finalization_gate(
        SID,
        FP,
        Some(DurableSessionState::FinalizationPending),
        &StoredIntent::Found(OTHER.to_string()),
        &record(FP, RecordState::Pending),
    );
    match g {
        FinalizationGate::Finish(FinalizationOutcome::Conflict(c)) => {
            assert_eq!(c.expected_fingerprint, FP);
            assert_eq!(c.stored_fingerprint, OTHER);
        }
        other => panic!("unexpected {:?}", other),
    }
    let g = finalization_gate(
        SID,
        FP,
        Some(DurableSessionState::FinalizationPending),
        &StoredIntent::Found(FP.to_string()),
        &record(OTHER, RecordState::Pending),
    );
    assert!(matches!(g, FinalizationGate::Finish(FinalizationOutcome::Conflict(_))));
}

#[test]
fn finalizer_commit_steps_check_their_rows() {
    assert!(confirm_record_committed(1).is_ok());
    assert_eq!(integrity(confirm_record_committed(0).unwrap_err()), "finalization commit lost its pending row");
    assert!(confirm_session_finalized(1).is_ok());
    assert_eq!(
        integrity(confirm_session_finalized(2).unwrap_err()),
        "session finalization lost its pending state"
    );
}

#[test]
fn injected_failures_fire_only_at_their_point() {
    assert!(inject(None, FinalizerFailurePoint::AfterTestInsertion).is_ok());
    assert!(inject(Some(FinalizerFailurePoint::AfterReplayInsertion), FinalizerFailurePoint::AfterTestInsertion).is_ok());
    assert_eq!(
        integrity(inject(Some(FinalizerFailurePoint::AfterTestInsertion), FinalizerFailurePoint::AfterTestInsertion).unwrap_err()),
        "injected finalization failure"
    );
}

#[test]
fn crash_checkpoint_names_round_trip() {
    let all = [
        FinalizerCrashCheckpoint::BeforeTestInsertion,
        FinalizerCrashCheckpoint::AfterTestInsertion,
        FinalizerCrashCheckpoint::AfterReplayInsertion,
        FinalizerCrashCheckpoint::AfterPersonalBestUpdate,
        FinalizerCrashCheckpoint::AfterDailyStatisticsUpdate,
        FinalizerCrashCheckpoint::AfterStreakUpdate,
        FinalizerCrashCheckpoint::AfterDailyGoalUpdate,
        FinalizerCrashCheckpoint::AfterLessonUpdate,
        FinalizerCrashCheckpoint::AfterV008CommittedUpdate,
        FinalizerCrashCheckpoint::AfterV006FinalizedUpdate,
        FinalizerCrashCheckpoint::AfterFinalizerTransactionCommit,
    ];
    for c in all {
        assert_eq!(FinalizerCrashCheckpoint::from_storage_name(c.storage_name()), Some(c));
    }
    assert_eq!(FinalizerCrashCheckpoint::AfterLessonUpdate.storage_name(), "after_lesson_update");
    assert_eq!(FinalizerCrashCheckpoint::from_storage_name("after_everything"), None);
}

#[test]
fn completion_amounts_fit_or_fail() {
    assert_eq!(completion_amounts(30_000, 45, 5).unwrap(), (30_000, 50));
    assert_eq!(
        integrity(completion_amounts(u64::MAX, 1, 1).unwrap_err()),
        "duration exceeds i64"
    );
    assert_eq!(
        integrity(completion_amounts(1, usize::MAX, 1).unwrap_err()),
        "character count exceeds i64"
    );
    assert_eq!(
        integrity(completion_amounts(1, usize::MAX / 2 + 1, 0).unwrap_err()),
        "character count exceeds i64"
    );
}

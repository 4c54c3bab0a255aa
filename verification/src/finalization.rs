//! Decisions of the durable finalization ledger and of the session finalizer.
//!
//! The storage adapters read rows and perform writes inside one transaction;
//! what each operation concludes from what it read, and the single write it
//! asks for, is decided here. The laws at the end state how claims, commits,
//! quarantines and finalizer retries fit together.

use vstd::prelude::*;

use crate::error::DbError;
use crate::text::str_equals;

verus! {

// ── States and reasons ──

/// Durable lifecycle state of a typing session in the session ledger.
#[derive(Debug, Clone, Copy, PartialEq, Eq, Structural)]
pub enum DurableSessionState {
    Running,
    AwaitingPersistence,
    FinalizationPending,
    Finalized,
    Aborted,
    Interrupted,
    Quarantined,
}

/// Stored name of a session state.
pub open spec fn session_state_name(s: DurableSessionState) -> Seq<char> {
    match s {
        DurableSessionState::Running => "running"@,
        DurableSessionState::AwaitingPersistence => "awaiting_persistence"@,
        DurableSessionState::FinalizationPending => "finalization_pending"@,
        DurableSessionState::Finalized => "finalized"@,
        DurableSessionState::Aborted => "aborted"@,
        DurableSessionState::Interrupted => "interrupted"@,
        DurableSessionState::Quarantined => "quarantined"@,
    }
}

/// The session state whose stored name is `s`, if there is one.
pub open spec fn session_state_named(s: Seq<char>) -> Option<DurableSessionState> {
    if exists|x: DurableSessionState| session_state_name(x) == s {
        Some(choose|x: DurableSessionState| session_state_name(x) == s)
    } else {
        None
    }
}

/// No two values of DurableSessionState share a stored name.
pub proof fn session_state_names_are_distinct(a: DurableSessionState, b: DurableSessionState)
    ensures
        session_state_name(a) == session_state_name(b) ==> a == b,
{
    reveal_strlit("running");
    reveal_strlit("awaiting_persistence");
    reveal_strlit("finalization_pending");
    reveal_strlit("finalized");
    reveal_strlit("aborted");
    reveal_strlit("interrupted");
    reveal_strlit("quarantined");
    let (x, y) = (session_state_name(a), session_state_name(b));
    if a != b {
        assert(x.len() != y.len() || x[0] != y[0]);
    }
}

/// A stored name reads back as the value it names, and only such names
/// read back.
pub proof fn session_state_names_read_back(a: DurableSessionState, s: Seq<char>)
    ensures
        session_state_named(session_state_name(a)) == Some(a),
        session_state_named(s) matches Some(b) ==> session_state_name(b) == s,
        session_state_named(s) is None <==> forall|b: DurableSessionState| session_state_name(b) != s,
{
    let b = choose|b: DurableSessionState| session_state_name(b) == session_state_name(a);
    session_state_names_are_distinct(a, b);
}

impl DurableSessionState {
    /// Stored name of the state.
    pub fn storage_name(self) -> (s: &'static str)
        ensures
            s@ == session_state_name(self),
    {
        match self {
            DurableSessionState::Running => "running",
            DurableSessionState::AwaitingPersistence => "awaiting_persistence",
            DurableSessionState::FinalizationPending => "finalization_pending",
            DurableSessionState::Finalized => "finalized",
            DurableSessionState::Aborted => "aborted",
            DurableSessionState::Interrupted => "interrupted",
            DurableSessionState::Quarantined => "quarantined",
        }
    }

    /// The state stored under `value`, if any.
    pub fn from_storage_name(value: &str) -> (r: Option<DurableSessionState>)
        ensures
            r == session_state_named(value@),
    {
        let r = if str_equals(value, "running") {
            Some(DurableSessionState::Running)
        } else if str_equals(value, "awaiting_persistence") {
            Some(DurableSessionState::AwaitingPersistence)
        } else if str_equals(value, "finalization_pending") {
            Some(DurableSessionState::FinalizationPending)
        } else if str_equals(value, "finalized") {
            Some(DurableSessionState::Finalized)
        } else if str_equals(value, "aborted") {
            Some(DurableSessionState::Aborted)
        } else if str_equals(value, "interrupted") {
            Some(DurableSessionState::Interrupted)
        } else if str_equals(value, "quarantined") {
            Some(DurableSessionState::Quarantined)
        } else {
            None
        };
        proof {
            match r {
                Some(a) => session_state_names_read_back(a, value@),
                None => session_state_names_read_back(DurableSessionState::Running, value@),
            }
        }
        r
    }
}

/// State of a finalization record.
#[derive(Debug, Clone, Copy, PartialEq, Eq, Structural)]
pub enum FinalizationLedgerState {
    Pending,
    Committed,
    Quarantined,
}

/// Stored name of a finalization state.
pub open spec fn ledger_state_name(s: FinalizationLedgerState) -> Seq<char> {
    match s {
        FinalizationLedgerState::Pending => "pending"@,
        FinalizationLedgerState::Committed => "committed"@,
        FinalizationLedgerState::Quarantined => "quarantined"@,
    }
}

/// The finalization state whose stored name is `s`, if there is one.
pub open spec fn ledger_state_named(s: Seq<char>) -> Option<FinalizationLedgerState> {
    if exists|x: FinalizationLedgerState| ledger_state_name(x) == s {
        Some(choose|x: FinalizationLedgerState| ledger_state_name(x) == s)
    } else {
        None
    }
}

/// No two values of FinalizationLedgerState share a stored name.
pub proof fn ledger_state_names_are_distinct(a: FinalizationLedgerState, b: FinalizationLedgerState)
    ensures
        ledger_state_name(a) == ledger_state_name(b) ==> a == b,
{
    reveal_strlit("pending");
    reveal_strlit("committed");
    reveal_strlit("quarantined");
    let (x, y) = (ledger_state_name(a), ledger_state_name(b));
    if a != b {
        assert(x.len() != y.len() || x[0] != y[0]);
    }
}

/// A stored name reads back as the value it names, and only such names
/// read back.
pub proof fn ledger_state_names_read_back(a: FinalizationLedgerState, s: Seq<char>)
    ensures
        ledger_state_named(ledger_state_name(a)) == Some(a),
        ledger_state_named(s) matches Some(b) ==> ledger_state_name(b) == s,
        ledger_state_named(s) is None <==> forall|b: FinalizationLedgerState| ledger_state_name(b) != s,
{
    let b = choose|b: FinalizationLedgerState| ledger_state_name(b) == ledger_state_name(a);
    ledger_state_names_are_distinct(a, b);
}

impl FinalizationLedgerState {
    /// Stored name of the state.
    pub fn storage_name(self) -> (s: &'static str)
        ensures
            s@ == ledger_state_name(self),
    {
        match self {
            FinalizationLedgerState::Pending => "pending",
            FinalizationLedgerState::Committed => "committed",
            FinalizationLedgerState::Quarantined => "quarantined",
        }
    }

    /// The state stored under `value`, if any.
    pub fn from_storage_name(value: &str) -> (r: Option<FinalizationLedgerState>)
        ensures
            r == ledger_state_named(value@),
    {
        let r = if str_equals(value, "pending") {
            Some(FinalizationLedgerState::Pending)
        } else if str_equals(value, "committed") {
            Some(FinalizationLedgerState::Committed)
        } else if str_equals(value, "quarantined") {
            Some(FinalizationLedgerState::Quarantined)
        } else {
            None
        };
        proof {
            match r {
                Some(a) => ledger_state_names_read_back(a, value@),
                None => ledger_state_names_read_back(FinalizationLedgerState::Pending, value@),
            }
        }
        r
    }
}

/// Why the finalization ledger set a record aside.
#[derive(Debug, Clone, Copy, PartialEq, Eq, Structural)]
pub enum FinalizationQuarantineReason {
    MissingCompletionIntent,
    CorruptDurableMetadata,
    FingerprintMismatch,
    InvalidFinalizationState,
}

/// Stored name of a finalization quarantine reason.
pub open spec fn ledger_reason_name(r: FinalizationQuarantineReason) -> Seq<char> {
    match r {
        FinalizationQuarantineReason::MissingCompletionIntent => "missing_completion_intent"@,
        FinalizationQuarantineReason::CorruptDurableMetadata => "corrupt_durable_metadata"@,
        FinalizationQuarantineReason::FingerprintMismatch => "fingerprint_mismatch"@,
        FinalizationQuarantineReason::InvalidFinalizationState => "invalid_finalization_state"@,
    }
}

/// The finalization quarantine reason whose stored name is `s`, if there is one.
pub open spec fn ledger_reason_named(s: Seq<char>) -> Option<FinalizationQuarantineReason> {
    if exists|x: FinalizationQuarantineReason| ledger_reason_name(x) == s {
        Some(choose|x: FinalizationQuarantineReason| ledger_reason_name(x) == s)
    } else {
        None
    }
}

/// No two values of FinalizationQuarantineReason share a stored name.
pub proof fn ledger_reason_names_are_distinct(a: FinalizationQuarantineReason, b: FinalizationQuarantineReason)
    ensures
        ledger_reason_name(a) == ledger_reason_name(b) ==> a == b,
{
    reveal_strlit("missing_completion_intent");
    reveal_strlit("corrupt_durable_metadata");
    reveal_strlit("fingerprint_mismatch");
    reveal_strlit("invalid_finalization_state");
    let (x, y) = (ledger_reason_name(a), ledger_reason_name(b));
    if a != b {
        assert(x.len() != y.len() || x[0] != y[0]);
    }
}

/// A stored name reads back as the value it names, and only such names
/// read back.
pub proof fn ledger_reason_names_read_back(a: FinalizationQuarantineReason, s: Seq<char>)
    ensures
        ledger_reason_named(ledger_reason_name(a)) == Some(a),
        ledger_reason_named(s) matches Some(b) ==> ledger_reason_name(b) == s,
        ledger_reason_named(s) is None <==> forall|b: FinalizationQuarantineReason| ledger_reason_name(b) != s,
{
    let b = choose|b: FinalizationQuarantineReason| ledger_reason_name(b) == ledger_reason_name(a);
    ledger_reason_names_are_distinct(a, b);
}

impl FinalizationQuarantineReason {
    /// Stored name of the reason.
    pub fn storage_name(self) -> (s: &'static str)
        ensures
            s@ == ledger_reason_name(self),
    {
        match self {
            FinalizationQuarantineReason::MissingCompletionIntent => "missing_completion_intent",
            FinalizationQuarantineReason::CorruptDurableMetadata => "corrupt_durable_metadata",
            FinalizationQuarantineReason::FingerprintMismatch => "fingerprint_mismatch",
            FinalizationQuarantineReason::InvalidFinalizationState => "invalid_finalization_state",
        }
    }

    /// The reason stored under `value`, if any.
    pub fn from_storage_name(value: &str) -> (r: Option<FinalizationQuarantineReason>)
        ensures
            r == ledger_reason_named(value@),
    {
        let r = if str_equals(value, "missing_completion_intent") {
            Some(FinalizationQuarantineReason::MissingCompletionIntent)
        } else if str_equals(value, "corrupt_durable_metadata") {
            Some(FinalizationQuarantineReason::CorruptDurableMetadata)
        } else if str_equals(value, "fingerprint_mismatch") {
            Some(FinalizationQuarantineReason::FingerprintMismatch)
        } else if str_equals(value, "invalid_finalization_state") {
            Some(FinalizationQuarantineReason::InvalidFinalizationState)
        } else {
            None
        };
        proof {
            match r {
                Some(a) => ledger_reason_names_read_back(a, value@),
                None => ledger_reason_names_read_back(FinalizationQuarantineReason::MissingCompletionIntent, value@),
            }
        }
        r
    }
}

/// Why the session ledger or the finalizer set a session aside.
#[derive(Debug, Clone, Copy, PartialEq, Eq, Structural)]
pub enum QuarantineReason {
    UnsupportedCanonicalizationVersion,
    UnsupportedIntentVersion,
    CorruptCompletionPayload,
    MissingCompletionIntent,
    ConflictingCompletionIntent,
    InvalidStateRecord,
    FingerprintMismatch,
    InconsistentDurableMetadata,
}

/// Stored name of a session quarantine reason.
pub open spec fn session_reason_name(r: QuarantineReason) -> Seq<char> {
    match r {
        QuarantineReason::UnsupportedCanonicalizationVersion => "unsupported_canonicalization_version"@,
        QuarantineReason::UnsupportedIntentVersion => "unsupported_intent_version"@,
        QuarantineReason::CorruptCompletionPayload => "corrupt_completion_payload"@,
        QuarantineReason::MissingCompletionIntent => "missing_completion_intent"@,
        QuarantineReason::ConflictingCompletionIntent => "conflicting_completion_intent"@,
        QuarantineReason::InvalidStateRecord => "invalid_state_record"@,
        QuarantineReason::FingerprintMismatch => "fingerprint_mismatch"@,
        QuarantineReason::InconsistentDurableMetadata => "inconsistent_durable_metadata"@,
    }
}

impl QuarantineReason {
    /// Stored name of the reason.
    pub fn storage_name(self) -> (s: &'static str)
        ensures
            s@ == session_reason_name(self),
    {
        match self {
            QuarantineReason::UnsupportedCanonicalizationVersion => "unsupported_canonicalization_version",
            QuarantineReason::UnsupportedIntentVersion => "unsupported_intent_version",
            QuarantineReason::CorruptCompletionPayload => "corrupt_completion_payload",
            QuarantineReason::MissingCompletionIntent => "missing_completion_intent",
            QuarantineReason::ConflictingCompletionIntent => "conflicting_completion_intent",
            QuarantineReason::InvalidStateRecord => "invalid_state_record",
            QuarantineReason::FingerprintMismatch => "fingerprint_mismatch",
            QuarantineReason::InconsistentDurableMetadata => "inconsistent_durable_metadata",
        }
    }
}

// ── What the adapters read ──

/// The completion intent's fingerprint as the ledger reads it.
#[derive(Debug, Clone)]
pub enum IntentFingerprint {
    Missing,
    Found(String),
    Corrupt,
}

/// State of a validated finalization record; a quarantined record carries
/// its reason.
#[derive(Debug, Clone, Copy, PartialEq, Eq, Structural)]
pub enum RecordState {
    Pending,
    Committed,
    Quarantined(FinalizationQuarantineReason),
}

/// A validated finalization record.
#[derive(Debug, Clone)]
pub struct FinalizationRecord {
    pub fingerprint: String,
    pub state: RecordState,
}

impl FinalizationRecord {
    /// The record's ledger state.
    pub fn ledger_state(&self) -> (s: FinalizationLedgerState)
        ensures
            s == record_ledger_state(self.state),
    {
        match self.state {
            RecordState::Pending => FinalizationLedgerState::Pending,
            RecordState::Committed => FinalizationLedgerState::Committed,
            RecordState::Quarantined(_) => FinalizationLedgerState::Quarantined,
        }
    }
}

/// Ledger state of a record state.
pub open spec fn record_ledger_state(s: RecordState) -> FinalizationLedgerState {
    match s {
        RecordState::Pending => FinalizationLedgerState::Pending,
        RecordState::Committed => FinalizationLedgerState::Committed,
        RecordState::Quarantined(_) => FinalizationLedgerState::Quarantined,
    }
}

/// The finalization row of a session as read: absent, valid or corrupt.
#[derive(Debug, Clone)]
pub enum StoredFinalization {
    Missing,
    Found(FinalizationRecord),
    Corrupt,
}

/// Two fingerprints of one session that disagree.
#[derive(Debug, Clone)]
pub struct FinalizationConflict {
    pub session_id: String,
    pub expected_fingerprint: String,
    pub stored_fingerprint: String,
}

/// `c` reports that `stored` disagrees with `expected` for `session_id`.
pub open spec fn conflict_of(
    c: FinalizationConflict,
    session_id: Seq<char>,
    expected: Seq<char>,
    stored: Seq<char>,
) -> bool {
    &&& c.session_id@ == session_id
    &&& c.expected_fingerprint@ == expected
    &&& c.stored_fingerprint@ == stored
}

fn make_conflict(session_id: &str, expected: &str, stored: &String) -> (c: FinalizationConflict)
    ensures
        conflict_of(c, session_id@, expected@, stored@),
{
    FinalizationConflict {
        session_id: session_id.to_owned(),
        expected_fingerprint: expected.to_owned(),
        stored_fingerprint: stored.clone(),
    }
}

/// The one write an operation asks the adapter to make.
#[derive(Debug, Clone, Copy, PartialEq, Eq, Structural)]
pub enum LedgerWrite {
    /// Nothing to write.
    Keep,
    /// Insert a pending record bound to the expected fingerprint.
    InsertPending,
    /// Move the pending record to committed.
    MarkCommitted,
    /// Move the pending record to quarantined with the reason.
    MarkQuarantined(FinalizationQuarantineReason),
}

// ── Claim ──

/// Result of claiming a session for finalization.
#[derive(Debug, Clone)]
pub enum FinalizationLedgerClaimOutcome {
    NotFound,
    Quarantined(FinalizationQuarantineReason),
    MissingCompletionIntent,
    Conflict(FinalizationConflict),
    Claimed,
    Corrupt,
    AlreadyPending,
    AlreadyCommitted,
}

/// The claim of `session_id` with `expected` decides `o` and the write `w`,
/// given the session state read (`None`: no session row; `Some(None)`: a
/// state that does not parse), the intent fingerprint and the finalization
/// row.
pub open spec fn claim_decided(
    o: FinalizationLedgerClaimOutcome,
    w: LedgerWrite,
    session_id: Seq<char>,
    expected: Seq<char>,
    session: Option<Option<DurableSessionState>>,
    intent: IntentFingerprint,
    stored: StoredFinalization,
) -> bool {
    match session {
        None => o is NotFound && w == LedgerWrite::Keep,
        Some(state) => if state != Some(DurableSessionState::FinalizationPending) {
            o == FinalizationLedgerClaimOutcome::Quarantined(
                FinalizationQuarantineReason::InvalidFinalizationState,
            ) && w == LedgerWrite::Keep
        } else {
            match intent {
                IntentFingerprint::Missing => o is MissingCompletionIntent && w == LedgerWrite::Keep,
                IntentFingerprint::Corrupt => o == FinalizationLedgerClaimOutcome::Quarantined(
                    FinalizationQuarantineReason::CorruptDurableMetadata,
                ) && w == LedgerWrite::Keep,
                IntentFingerprint::Found(fp) => if fp@ != expected {
                    o matches FinalizationLedgerClaimOutcome::Conflict(c) && conflict_of(
                        c,
                        session_id,
                        expected,
                        fp@,
                    ) && w == LedgerWrite::Keep
                } else {
                    match stored {
                        StoredFinalization::Missing => o is Claimed && w == LedgerWrite::InsertPending,
                        StoredFinalization::Corrupt => o is Corrupt && w == LedgerWrite::Keep,
                        StoredFinalization::Found(rec) => w == LedgerWrite::Keep && if rec.fingerprint@
                            != expected {
                            o matches FinalizationLedgerClaimOutcome::Conflict(c) && conflict_of(
                                c,
                                session_id,
                                expected,
                                rec.fingerprint@,
                            )
                        } else {
                            match rec.state {
                                RecordState::Pending => o is AlreadyPending,
                                RecordState::Committed => o is AlreadyCommitted,
                                RecordState::Quarantined(r) => o
                                    == FinalizationLedgerClaimOutcome::Quarantined(r),
                            }
                        },
                    }
                },
            }
        },
    }
}

/// Decides a claim of `session_id` for finalization with the fingerprint
/// `expected`. An absent finalization row is claimed by inserting a pending
/// record; an existing one is reported as it stands.
pub fn decide_claim(
    session_id: &str,
    expected: &str,
    session: Option<Option<DurableSessionState>>,
    intent: &IntentFingerprint,
    stored: &StoredFinalization,
) -> (r: (FinalizationLedgerClaimOutcome, LedgerWrite))
    ensures
        claim_decided(r.0, r.1, session_id@, expected@, session, *intent, *stored),
{
    match session {
        None => (FinalizationLedgerClaimOutcome::NotFound, LedgerWrite::Keep),
        Some(state) => {
            if state != Some(DurableSessionState::FinalizationPending) {
                return (
                    FinalizationLedgerClaimOutcome::Quarantined(
                        FinalizationQuarantineReason::InvalidFinalizationState,
                    ),
                    LedgerWrite::Keep,
                );
            }
            match intent {
                IntentFingerprint::Missing => (
                    FinalizationLedgerClaimOutcome::MissingCompletionIntent,
                    LedgerWrite::Keep,
                ),
                IntentFingerprint::Corrupt => (
                    FinalizationLedgerClaimOutcome::Quarantined(
                        FinalizationQuarantineReason::CorruptDurableMetadata,
                    ),
                    LedgerWrite::Keep,
                ),
                IntentFingerprint::Found(fp) => {
                    if !str_equals(fp.as_str(), expected) {
                        return (
                            FinalizationLedgerClaimOutcome::Conflict(
                                make_conflict(session_id, expected, fp),
                            ),
                            LedgerWrite::Keep,
                        );
                    }
                    match stored {
                        StoredFinalization::Missing => (
                            FinalizationLedgerClaimOutcome::Claimed,
                            LedgerWrite::InsertPending,
                        ),
                        StoredFinalization::Corrupt => (
                            FinalizationLedgerClaimOutcome::Corrupt,
                            LedgerWrite::Keep,
                        ),
                        StoredFinalization::Found(rec) => {
                            if !str_equals(rec.fingerprint.as_str(), expected) {
                                return (
                                    FinalizationLedgerClaimOutcome::Conflict(
                                        make_conflict(session_id, expected, &rec.fingerprint),
                                    ),
                                    LedgerWrite::Keep,
                                );
                            }
                            let o = match rec.state {
                                RecordState::Pending => FinalizationLedgerClaimOutcome::AlreadyPending,
                                RecordState::Committed => FinalizationLedgerClaimOutcome::AlreadyCommitted,
                                RecordState::Quarantined(reason) => FinalizationLedgerClaimOutcome::Quarantined(reason),
                            };
                            (o, LedgerWrite::Keep)
                        },
                    }
                },
            }
        },
    }
}

// ── Commit ──

/// Result of committing, or quarantining, a finalization record.
#[derive(Debug, Clone)]
pub enum FinalizationCommitOutcome {
    NotFound,
    Quarantined(FinalizationQuarantineReason),
    Conflict(FinalizationConflict),
    Corrupt,
    Committed,
    AlreadyCommitted,
    NotPending { state: FinalizationLedgerState },
}

/// Marking `session_id` committed with `expected` decides `o` and `w`.
pub open spec fn commit_decided(
    o: FinalizationCommitOutcome,
    w: LedgerWrite,
    session_id: Seq<char>,
    expected: Seq<char>,
    session: Option<Option<DurableSessionState>>,
    intent: IntentFingerprint,
    stored: StoredFinalization,
) -> bool {
    match session {
        None => o is NotFound && w == LedgerWrite::Keep,
        Some(state) => if state != Some(DurableSessionState::FinalizationPending) {
            o == FinalizationCommitOutcome::Quarantined(
                FinalizationQuarantineReason::InvalidFinalizationState,
            ) && w == LedgerWrite::Keep
        } else {
            match intent {
                IntentFingerprint::Missing => o == FinalizationCommitOutcome::Quarantined(
                    FinalizationQuarantineReason::MissingCompletionIntent,
                ) && w == LedgerWrite::Keep,
                IntentFingerprint::Corrupt => o == FinalizationCommitOutcome::Quarantined(
                    FinalizationQuarantineReason::CorruptDurableMetadata,
                ) && w == LedgerWrite::Keep,
                IntentFingerprint::Found(fp) => if fp@ != expected {
                    o matches FinalizationCommitOutcome::Conflict(c) && conflict_of(
                        c,
                        session_id,
                        expected,
                        fp@,
                    ) && w == LedgerWrite::Keep
                } else {
                    match stored {
                        StoredFinalization::Missing => o is NotFound && w == LedgerWrite::Keep,
                        StoredFinalization::Corrupt => o is Corrupt && w == LedgerWrite::Keep,
                        StoredFinalization::Found(rec) => if rec.fingerprint@ != expected {
                            o matches FinalizationCommitOutcome::Conflict(c) && conflict_of(
                                c,
                                session_id,
                                expected,
                                rec.fingerprint@,
                            ) && w == LedgerWrite::Keep
                        } else {
                            match rec.state {
                                RecordState::Pending => o is Committed && w
                                    == LedgerWrite::MarkCommitted,
                                RecordState::Committed => o is AlreadyCommitted && w
                                    == LedgerWrite::Keep,
                                RecordState::Quarantined(r) => o
                                    == FinalizationCommitOutcome::Quarantined(r) && w
                                    == LedgerWrite::Keep,
                            }
                        },
                    }
                },
            }
        },
    }
}

/// Decides marking the finalization of `session_id` committed: only a
/// pending record bound to `expected` moves to committed.
pub fn decide_commit(
    session_id: &str,
    expected: &str,
    session: Option<Option<DurableSessionState>>,
    intent: &IntentFingerprint,
    stored: &StoredFinalization,
) -> (r: (FinalizationCommitOutcome, LedgerWrite))
    ensures
        commit_decided(r.0, r.1, session_id@, expected@, session, *intent, *stored),
{
    match session {
        None => (FinalizationCommitOutcome::NotFound, LedgerWrite::Keep),
        Some(state) => {
            if state != Some(DurableSessionState::FinalizationPending) {
                return (
                    FinalizationCommitOutcome::Quarantined(
                        FinalizationQuarantineReason::InvalidFinalizationState,
                    ),
                    LedgerWrite::Keep,
                );
            }
            match intent {
                IntentFingerprint::Missing => (
                    FinalizationCommitOutcome::Quarantined(
                        FinalizationQuarantineReason::MissingCompletionIntent,
                    ),
                    LedgerWrite::Keep,
                ),
                IntentFingerprint::Corrupt => (
                    FinalizationCommitOutcome::Quarantined(
                        FinalizationQuarantineReason::CorruptDurableMetadata,
                    ),
                    LedgerWrite::Keep,
                ),
                IntentFingerprint::Found(fp) => {
                    if !str_equals(fp.as_str(), expected) {
                        return (
                            FinalizationCommitOutcome::Conflict(
                                make_conflict(session_id, expected, fp),
                            ),
                            LedgerWrite::Keep,
                        );
                    }
                    match stored {
                        StoredFinalization::Missing => (FinalizationCommitOutcome::NotFound, LedgerWrite::Keep),
                        StoredFinalization::Corrupt => (FinalizationCommitOutcome::Corrupt, LedgerWrite::Keep),
                        StoredFinalization::Found(rec) => {
                            if !str_equals(rec.fingerprint.as_str(), expected) {
                                return (
                                    FinalizationCommitOutcome::Conflict(
                                        make_conflict(session_id, expected, &rec.fingerprint),
                                    ),
                                    LedgerWrite::Keep,
                                );
                            }
                            match rec.state {
                                RecordState::Pending => (
                                    FinalizationCommitOutcome::Committed,
                                    LedgerWrite::MarkCommitted,
                                ),
                                RecordState::Committed => (
                                    FinalizationCommitOutcome::AlreadyCommitted,
                                    LedgerWrite::Keep,
                                ),
                                RecordState::Quarantined(reason) => (
                                    FinalizationCommitOutcome::Quarantined(reason),
                                    LedgerWrite::Keep,
                                ),
                            }
                        },
                    }
                },
            }
        },
    }
}

// ── Quarantine ──

/// The reason the durable intent imposes on a quarantine of `rec`, if any:
/// a missing or corrupt intent, or one whose fingerprint differs.
pub open spec fn durable_reason(intent: IntentFingerprint, rec: FinalizationRecord) -> Option<
    FinalizationQuarantineReason,
> {
    match intent {
        IntentFingerprint::Missing => Some(FinalizationQuarantineReason::MissingCompletionIntent),
        IntentFingerprint::Corrupt => Some(FinalizationQuarantineReason::CorruptDurableMetadata),
        IntentFingerprint::Found(fp) => if fp@ != rec.fingerprint@ {
            Some(FinalizationQuarantineReason::FingerprintMismatch)
        } else {
            None
        },
    }
}

/// Quarantining `session_id` for `reason` with `expected` decides `o` and `w`.
pub open spec fn quarantine_decided(
    o: FinalizationCommitOutcome,
    w: LedgerWrite,
    session_id: Seq<char>,
    expected: Seq<char>,
    reason: FinalizationQuarantineReason,
    intent: IntentFingerprint,
    stored: StoredFinalization,
) -> bool {
    match stored {
        StoredFinalization::Missing => o is NotFound && w == LedgerWrite::Keep,
        StoredFinalization::Corrupt => o is Corrupt && w == LedgerWrite::Keep,
        StoredFinalization::Found(rec) => if rec.fingerprint@ != expected {
            o matches FinalizationCommitOutcome::Conflict(c) && conflict_of(
                c,
                session_id,
                expected,
                rec.fingerprint@,
            ) && w == LedgerWrite::Keep
        } else {
            let applied = match durable_reason(intent, rec) {
                Some(d) => d,
                None => reason,
            };
            match rec.state {
                RecordState::Pending => o == FinalizationCommitOutcome::Quarantined(applied) && w
                    == LedgerWrite::MarkQuarantined(applied),
                RecordState::Committed => o == (FinalizationCommitOutcome::NotPending {
                    state: FinalizationLedgerState::Committed,
                }) && w == LedgerWrite::Keep,
                RecordState::Quarantined(r) => o == FinalizationCommitOutcome::Quarantined(r) && w
                    == LedgerWrite::Keep,
            }
        },
    }
}

/// Decides quarantining the finalization of `session_id` for `reason`. A
/// durable problem with the intent takes precedence over `reason`; only a
/// pending record is changed, terminal records keep their state.
pub fn decide_quarantine(
    session_id: &str,
    expected: &str,
    reason: FinalizationQuarantineReason,
    intent: &IntentFingerprint,
    stored: &StoredFinalization,
) -> (r: (FinalizationCommitOutcome, LedgerWrite))
    ensures
        quarantine_decided(r.0, r.1, session_id@, expected@, reason, *intent, *stored),
{
    match stored {
        StoredFinalization::Missing => (FinalizationCommitOutcome::NotFound, LedgerWrite::Keep),
        StoredFinalization::Corrupt => (FinalizationCommitOutcome::Corrupt, LedgerWrite::Keep),
        StoredFinalization::Found(rec) => {
            if !str_equals(rec.fingerprint.as_str(), expected) {
                return (
                    FinalizationCommitOutcome::Conflict(
                        make_conflict(session_id, expected, &rec.fingerprint),
                    ),
                    LedgerWrite::Keep,
                );
            }
            let applied = match intent {
                IntentFingerprint::Missing => FinalizationQuarantineReason::MissingCompletionIntent,
                IntentFingerprint::Corrupt => FinalizationQuarantineReason::CorruptDurableMetadata,
                IntentFingerprint::Found(fp) => {
                    if !str_equals(fp.as_str(), rec.fingerprint.as_str()) {
                        FinalizationQuarantineReason::FingerprintMismatch
                    } else {
                        reason
                    }
                },
            };
            match rec.state {
                RecordState::Pending => (
                    FinalizationCommitOutcome::Quarantined(applied),
                    LedgerWrite::MarkQuarantined(applied),
                ),
                RecordState::Committed => (
                    FinalizationCommitOutcome::NotPending {
                        state: FinalizationLedgerState::Committed,
                    },
                    LedgerWrite::Keep,
                ),
                RecordState::Quarantined(r) => (
                    FinalizationCommitOutcome::Quarantined(r),
                    LedgerWrite::Keep,
                ),
            }
        },
    }
}

// ── Load ──

/// Result of loading a finalization record.
#[derive(Debug, Clone)]
pub enum FinalizationLoadOutcome {
    NotFound,
    Found(FinalizationRecord),
    Corrupt,
}

/// Loading decides `o`: a record is only trusted while the durable intent
/// carries the same fingerprint.
pub open spec fn load_decided(
    o: FinalizationLoadOutcome,
    intent: IntentFingerprint,
    stored: StoredFinalization,
) -> bool {
    match stored {
        StoredFinalization::Missing => o is NotFound,
        StoredFinalization::Corrupt => o is Corrupt,
        StoredFinalization::Found(rec) => if intent matches IntentFingerprint::Found(fp)
            && fp@ == rec.fingerprint@ {
            o matches FinalizationLoadOutcome::Found(r) && r.fingerprint@ == rec.fingerprint@
                && r.state == rec.state
        } else {
            o is Corrupt
        },
    }
}

/// Decides what loading a finalization record reports.
pub fn decide_load(intent: &IntentFingerprint, stored: StoredFinalization) -> (o:
    FinalizationLoadOutcome)
    ensures
        load_decided(o, *intent, stored),
{
    match stored {
        StoredFinalization::Missing => FinalizationLoadOutcome::NotFound,
        StoredFinalization::Corrupt => FinalizationLoadOutcome::Corrupt,
        StoredFinalization::Found(rec) => {
            let trusted = match intent {
                IntentFingerprint::Found(fp) => str_equals(fp.as_str(), rec.fingerprint.as_str()),
                _ => false,
            };
            if trusted {
                FinalizationLoadOutcome::Found(rec)
            } else {
                FinalizationLoadOutcome::Corrupt
            }
        },
    }
}

// ── Writes ──

/// What follows from a write that changed `changed` rows: a conditional
/// update of the pending record must change exactly that one row.
pub open spec fn write_confirmation(w: LedgerWrite, changed: nat) -> Option<Seq<char>> {
    match w {
        LedgerWrite::MarkCommitted => if changed != 1 {
            Some("finalization commit lost its pending record"@)
        } else {
            None
        },
        LedgerWrite::MarkQuarantined(_) => if changed != 1 {
            Some("finalization corruption quarantine lost its pending record"@)
        } else {
            None
        },
        _ => None,
    }
}

/// Checks the row count of a ledger write; an update that did not find its
/// pending record is an integrity failure.
pub fn confirm_ledger_write(w: LedgerWrite, changed: usize) -> (r: Result<(), DbError>)
    ensures
        r is Ok == (write_confirmation(w, changed as nat) is None),
        r matches Err(e) ==> e matches DbError::Integrity(m) && write_confirmation(
            w,
            changed as nat,
        ) == Some(m@),
{
    match w {
        LedgerWrite::MarkCommitted => {
            if changed != 1 {
                return Err(DbError::Integrity("finalization commit lost its pending record".to_owned()));
            }
            Ok(())
        },
        LedgerWrite::MarkQuarantined(_) => {
            if changed != 1 {
                return Err(
                    DbError::Integrity(
                        "finalization corruption quarantine lost its pending record".to_owned(),
                    ),
                );
            }
            Ok(())
        },
        _ => Ok(()),
    }
}

// ── Session finalizer ──

/// The stored completion intent as the finalizer reads it: found with its
/// fingerprint, or one of the reasons it cannot be used.
#[derive(Debug, Clone)]
pub enum StoredIntent {
    Missing,
    Found(String),
    UnsupportedCanonicalization,
    UnsupportedVersion,
    Corrupt,
}

/// Result of finalizing a completed session.
#[derive(Debug, Clone)]
pub enum FinalizationOutcome {
    NotFound,
    Quarantined(QuarantineReason),
    Conflict(FinalizationConflict),
    AlreadyFinalized,
    NewlyFinalized,
}

/// Where the finalizer goes after reading the session, its intent and its
/// finalization record.
#[derive(Debug, Clone)]
pub enum FinalizationGate {
    /// The outcome is known.
    Finish(FinalizationOutcome),
    /// A committed finalization: the stored test must match the intent.
    VerifyStoredTest,
    /// A pending claim: no test may be stored yet; then the effects apply.
    RequireNoStoredTest,
}

/// The finalizer's gate for `session_id` with `expected` is `g`.
pub open spec fn gate_decided(
    g: FinalizationGate,
    session_id: Seq<char>,
    expected: Seq<char>,
    session: Option<DurableSessionState>,
    intent: StoredIntent,
    stored: StoredFinalization,
) -> bool {
    match session {
        None => g matches FinalizationGate::Finish(FinalizationOutcome::NotFound),
        Some(state) => match intent {
            StoredIntent::Missing => g == FinalizationGate::Finish(
                FinalizationOutcome::Quarantined(QuarantineReason::MissingCompletionIntent),
            ),
            StoredIntent::UnsupportedCanonicalization => g == FinalizationGate::Finish(
                FinalizationOutcome::Quarantined(
                    QuarantineReason::UnsupportedCanonicalizationVersion,
                ),
            ),
            StoredIntent::UnsupportedVersion => g == FinalizationGate::Finish(
                FinalizationOutcome::Quarantined(QuarantineReason::UnsupportedIntentVersion),
            ),
            StoredIntent::Corrupt => g == FinalizationGate::Finish(
                FinalizationOutcome::Quarantined(QuarantineReason::CorruptCompletionPayload),
            ),
            StoredIntent::Found(fp) => if fp@ != expected {
                g matches FinalizationGate::Finish(FinalizationOutcome::Conflict(c)) && conflict_of(
                    c,
                    session_id,
                    expected,
                    fp@,
                )
            } else {
                match stored {
                    StoredFinalization::Found(rec) => if rec.fingerprint@ != expected {
                        g matches FinalizationGate::Finish(FinalizationOutcome::Conflict(c))
                            && conflict_of(c, session_id, expected, rec.fingerprint@)
                    } else if state == DurableSessionState::Finalized && rec.state
                        == RecordState::Committed {
                        g is VerifyStoredTest
                    } else if state == DurableSessionState::FinalizationPending && rec.state
                        == RecordState::Pending {
                        g is RequireNoStoredTest
                    } else {
                        g == FinalizationGate::Finish(
                            FinalizationOutcome::Quarantined(
                                QuarantineReason::InconsistentDurableMetadata,
                            ),
                        )
                    },
                    _ => g == FinalizationGate::Finish(
                        FinalizationOutcome::Quarantined(
                            QuarantineReason::InconsistentDurableMetadata,
                        ),
                    ),
                }
            },
        },
    }
}

fn inconsistent() -> (g: FinalizationGate)
    ensures
        g == FinalizationGate::Finish(
            FinalizationOutcome::Quarantined(QuarantineReason::InconsistentDurableMetadata),
        ),
{
    FinalizationGate::Finish(
        FinalizationOutcome::Quarantined(QuarantineReason::InconsistentDurableMetadata),
    )
}

/// Decides how finalizing `session_id` with the fingerprint `expected`
/// proceeds, from the session state (`None`: no session row), the stored
/// intent and the finalization record.
pub fn finalization_gate(
    session_id: &str,
    expected: &str,
    session: Option<DurableSessionState>,
    intent: &StoredIntent,
    stored: &StoredFinalization,
) -> (g: FinalizationGate)
    ensures
        gate_decided(g, session_id@, expected@, session, *intent, *stored),
{
    let state = match session {
        None => {
            return FinalizationGate::Finish(FinalizationOutcome::NotFound);
        },
        Some(state) => state,
    };
    let fp = match intent {
        StoredIntent::Missing => {
            return FinalizationGate::Finish(
                FinalizationOutcome::Quarantined(QuarantineReason::MissingCompletionIntent),
            );
        },
        StoredIntent::UnsupportedCanonicalization => {
            return FinalizationGate::Finish(
                FinalizationOutcome::Quarantined(
                    QuarantineReason::UnsupportedCanonicalizationVersion,
                ),
            );
        },
        StoredIntent::UnsupportedVersion => {
            return FinalizationGate::Finish(
                FinalizationOutcome::Quarantined(QuarantineReason::UnsupportedIntentVersion),
            );
        },
        StoredIntent::Corrupt => {
            return FinalizationGate::Finish(
                FinalizationOutcome::Quarantined(QuarantineReason::CorruptCompletionPayload),
            );
        },
        StoredIntent::Found(fp) => fp,
    };
    if !str_equals(fp.as_str(), expected) {
        return FinalizationGate::Finish(
            FinalizationOutcome::Conflict(make_conflict(session_id, expected, fp)),
        );
    }
    let rec = match stored {
        StoredFinalization::Found(rec) => rec,
        _ => {
            return inconsistent();
        },
    };
    if !str_equals(rec.fingerprint.as_str(), expected) {
        return FinalizationGate::Finish(
            FinalizationOutcome::Conflict(make_conflict(session_id, expected, &rec.fingerprint)),
        );
    }
    match (state, rec.state) {
        (DurableSessionState::Finalized, RecordState::Committed) => FinalizationGate::VerifyStoredTest,
        (DurableSessionState::FinalizationPending, RecordState::Pending) => FinalizationGate::RequireNoStoredTest,
        _ => inconsistent(),
    }
}

/// Outcome of a retried finalization whose committed test was compared
/// with the intent (`None`: no test row).
pub open spec fn verified_outcome(test_matches: Option<bool>) -> FinalizationOutcome {
    if test_matches == Some(true) {
        FinalizationOutcome::AlreadyFinalized
    } else {
        FinalizationOutcome::Quarantined(QuarantineReason::InconsistentDurableMetadata)
    }
}

/// Settles a committed finalization: it stands only while the stored test
/// matches the intent.
pub fn settle_committed(test_matches: Option<bool>) -> (o: FinalizationOutcome)
    ensures
        o == verified_outcome(test_matches),
{
    match test_matches {
        Some(true) => FinalizationOutcome::AlreadyFinalized,
        _ => FinalizationOutcome::Quarantined(QuarantineReason::InconsistentDurableMetadata),
    }
}

/// Settles a pending claim: `None` when the completion effects may apply,
/// the quarantine when a test of the session is already stored.
pub fn settle_pending(test_exists: bool) -> (o: Option<FinalizationOutcome>)
    ensures
        test_exists == (o is Some),
        o matches Some(out) ==> out == FinalizationOutcome::Quarantined(
            QuarantineReason::InconsistentDurableMetadata,
        ),
{
    if test_exists {
        Some(FinalizationOutcome::Quarantined(QuarantineReason::InconsistentDurableMetadata))
    } else {
        None
    }
}

/// Checks the row count of the finalizer's commit of the pending record.
pub fn confirm_record_committed(changed: usize) -> (r: Result<(), DbError>)
    ensures
        r is Ok == (changed == 1),
        r matches Err(e) ==> e matches DbError::Integrity(m) && m@
            == "finalization commit lost its pending row"@,
{
    if changed != 1 {
        return Err(DbError::Integrity("finalization commit lost its pending row".to_owned()));
    }
    Ok(())
}

/// Checks the row count of the move of the session to finalized.
pub fn confirm_session_finalized(changed: usize) -> (r: Result<(), DbError>)
    ensures
        r is Ok == (changed == 1),
        r matches Err(e) ==> e matches DbError::Integrity(m) && m@
            == "session finalization lost its pending state"@,
{
    if changed != 1 {
        return Err(DbError::Integrity("session finalization lost its pending state".to_owned()));
    }
    Ok(())
}

/// Points of the finalizer's transaction where a test run can make it fail,
/// to show that every effect rolls back.
#[derive(Debug, Clone, Copy, PartialEq, Eq, Structural)]
pub enum FinalizerFailurePoint {
    BeforeTestInsertion,
    AfterTestInsertion,
    AfterReplayInsertion,
    AfterPersonalBestUpdate,
    AfterDailyStatisticsUpdate,
    BeforeFinalizationCommit,
    AfterFinalizationCommit,
    AfterSessionFinalized,
}

/// Fails at `current` when that is the configured failure point.
pub fn inject(configured: Option<FinalizerFailurePoint>, current: FinalizerFailurePoint) -> (r:
    Result<(), DbError>)
    ensures
        r is Err == (configured == Some(current)),
        r matches Err(e) ==> e matches DbError::Integrity(m) && m@
            == "injected finalization failure"@,
{
    if configured == Some(current) {
        return Err(DbError::Integrity("injected finalization failure".to_owned()));
    }
    Ok(())
}

/// Points of the finalizer where a crash test stops the process.
#[derive(Debug, Clone, Copy, PartialEq, Eq, Structural)]
pub enum FinalizerCrashCheckpoint {
    BeforeTestInsertion,
    AfterTestInsertion,
    AfterReplayInsertion,
    AfterPersonalBestUpdate,
    AfterDailyStatisticsUpdate,
    AfterStreakUpdate,
    AfterDailyGoalUpdate,
    AfterLessonUpdate,
    AfterV008CommittedUpdate,
    AfterV006FinalizedUpdate,
    AfterFinalizerTransactionCommit,
}

/// Name of a crash checkpoint in the crash-test protocol.
pub open spec fn checkpoint_name(c: FinalizerCrashCheckpoint) -> Seq<char> {
    match c {
        FinalizerCrashCheckpoint::BeforeTestInsertion => "before_test_insertion"@,
        FinalizerCrashCheckpoint::AfterTestInsertion => "after_test_insertion"@,
        FinalizerCrashCheckpoint::AfterReplayInsertion => "after_replay_insertion"@,
        FinalizerCrashCheckpoint::AfterPersonalBestUpdate => "after_personal_best_update"@,
        FinalizerCrashCheckpoint::AfterDailyStatisticsUpdate => "after_daily_statistics_update"@,
        FinalizerCrashCheckpoint::AfterStreakUpdate => "after_streak_update"@,
        FinalizerCrashCheckpoint::AfterDailyGoalUpdate => "after_daily_goal_update"@,
        FinalizerCrashCheckpoint::AfterLessonUpdate => "after_lesson_update"@,
        FinalizerCrashCheckpoint::AfterV008CommittedUpdate => "after_v008_committed_update"@,
        FinalizerCrashCheckpoint::AfterV006FinalizedUpdate => "after_v006_finalized_update"@,
        FinalizerCrashCheckpoint::AfterFinalizerTransactionCommit => "after_finalizer_transaction_commit"@,
    }
}

/// The checkpoint whose name is `s`, if there is one.
pub open spec fn checkpoint_named(s: Seq<char>) -> Option<FinalizerCrashCheckpoint> {
    if exists|c: FinalizerCrashCheckpoint| checkpoint_name(c) == s {
        Some(choose|c: FinalizerCrashCheckpoint| checkpoint_name(c) == s)
    } else {
        None
    }
}

/// No two crash checkpoints share a name.
pub proof fn checkpoint_names_are_distinct(c: FinalizerCrashCheckpoint, d: FinalizerCrashCheckpoint)
    ensures
        checkpoint_name(c) == checkpoint_name(d) ==> c == d,
{
    reveal_strlit("before_test_insertion");
    reveal_strlit("after_test_insertion");
    reveal_strlit("after_replay_insertion");
    reveal_strlit("after_personal_best_update");
    reveal_strlit("after_daily_statistics_update");
    reveal_strlit("after_streak_update");
    reveal_strlit("after_daily_goal_update");
    reveal_strlit("after_lesson_update");
    reveal_strlit("after_v008_committed_update");
    reveal_strlit("after_v006_finalized_update");
    reveal_strlit("after_finalizer_transaction_commit");
    let (x, y) = (checkpoint_name(c), checkpoint_name(d));
    if c != d {
        assert(x.len() != y.len() || x[6] != y[6] || x[9] != y[9]);
    }
}

/// A checkpoint's name reads back as that checkpoint, and a name reads
/// back as a checkpoint only when it is that checkpoint's name.
pub proof fn checkpoint_names_read_back(c: FinalizerCrashCheckpoint, s: Seq<char>)
    ensures
        checkpoint_named(checkpoint_name(c)) == Some(c),
        checkpoint_named(s) matches Some(d) ==> checkpoint_name(d) == s,
        checkpoint_named(s) is None <==> forall|d: FinalizerCrashCheckpoint| checkpoint_name(d) != s,
{
    let d = choose|d: FinalizerCrashCheckpoint| checkpoint_name(d) == checkpoint_name(c);
    checkpoint_names_are_distinct(c, d);
}

impl FinalizerCrashCheckpoint {
    /// Stable, bounded name of the checkpoint.
    pub fn storage_name(self) -> (s: &'static str)
        ensures
            s@ == checkpoint_name(self),
    {
        match self {
            FinalizerCrashCheckpoint::BeforeTestInsertion => "before_test_insertion",
            FinalizerCrashCheckpoint::AfterTestInsertion => "after_test_insertion",
            FinalizerCrashCheckpoint::AfterReplayInsertion => "after_replay_insertion",
            FinalizerCrashCheckpoint::AfterPersonalBestUpdate => "after_personal_best_update",
            FinalizerCrashCheckpoint::AfterDailyStatisticsUpdate => "after_daily_statistics_update",
            FinalizerCrashCheckpoint::AfterStreakUpdate => "after_streak_update",
            FinalizerCrashCheckpoint::AfterDailyGoalUpdate => "after_daily_goal_update",
            FinalizerCrashCheckpoint::AfterLessonUpdate => "after_lesson_update",
            FinalizerCrashCheckpoint::AfterV008CommittedUpdate => "after_v008_committed_update",
            FinalizerCrashCheckpoint::AfterV006FinalizedUpdate => "after_v006_finalized_update",
            FinalizerCrashCheckpoint::AfterFinalizerTransactionCommit => "after_finalizer_transaction_commit",
        }
    }

    /// The checkpoint named `value`, if any.
    pub fn from_storage_name(value: &str) -> (r: Option<FinalizerCrashCheckpoint>)
        ensures
            r == checkpoint_named(value@),
    {
        let r = if str_equals(value, "before_test_insertion") {
            Some(FinalizerCrashCheckpoint::BeforeTestInsertion)
        } else if str_equals(value, "after_test_insertion") {
            Some(FinalizerCrashCheckpoint::AfterTestInsertion)
        } else if str_equals(value, "after_replay_insertion") {
            Some(FinalizerCrashCheckpoint::AfterReplayInsertion)
        } else if str_equals(value, "after_personal_best_update") {
            Some(FinalizerCrashCheckpoint::AfterPersonalBestUpdate)
        } else if str_equals(value, "after_daily_statistics_update") {
            Some(FinalizerCrashCheckpoint::AfterDailyStatisticsUpdate)
        } else if str_equals(value, "after_streak_update") {
            Some(FinalizerCrashCheckpoint::AfterStreakUpdate)
        } else if str_equals(value, "after_daily_goal_update") {
            Some(FinalizerCrashCheckpoint::AfterDailyGoalUpdate)
        } else if str_equals(value, "after_lesson_update") {
            Some(FinalizerCrashCheckpoint::AfterLessonUpdate)
        } else if str_equals(value, "after_v008_committed_update") {
            Some(FinalizerCrashCheckpoint::AfterV008CommittedUpdate)
        } else if str_equals(value, "after_v006_finalized_update") {
            Some(FinalizerCrashCheckpoint::AfterV006FinalizedUpdate)
        } else if str_equals(value, "after_finalizer_transaction_commit") {
            Some(FinalizerCrashCheckpoint::AfterFinalizerTransactionCommit)
        } else {
            None
        };
        proof {
            match r {
                Some(c) => checkpoint_names_read_back(c, value@),
                None => checkpoint_names_read_back(FinalizerCrashCheckpoint::BeforeTestInsertion, value@),
            }
        }
        r
    }
}

// ── Completion effects ──

/// The daily-statistics amounts of a completed test, or why they do not fit
/// the stored integers: (duration in ms, characters typed).
pub open spec fn completion_amounts_of(duration_ms: u64, correct_chars: usize, incorrect_chars: usize) -> Result<
    (i64, i64),
    Seq<char>,
> {
    if duration_ms > i64::MAX {
        Err("duration exceeds i64"@)
    } else if correct_chars + incorrect_chars > usize::MAX || correct_chars + incorrect_chars
        > i64::MAX {
        Err("character count exceeds i64"@)
    } else {
        Ok((duration_ms as i64, (correct_chars + incorrect_chars) as i64))
    }
}

/// Converts the duration and the character count of a completed test to
/// the integers the daily statistics store.
pub fn completion_amounts(duration_ms: u64, correct_chars: usize, incorrect_chars: usize) -> (r:
    Result<(i64, i64), DbError>)
    ensures
        match completion_amounts_of(duration_ms, correct_chars, incorrect_chars) {
            Ok(v) => r == Ok::<(i64, i64), DbError>(v),
            Err(m) => r matches Err(e) && e matches DbError::Integrity(t) && t@ == m,
        },
{
    if duration_ms > i64::MAX as u64 {
        return Err(DbError::Integrity("duration exceeds i64".to_owned()));
    }
    let characters = match correct_chars.checked_add(incorrect_chars) {
        Some(v) => v,
        None => {
            return Err(DbError::Integrity("character count exceeds i64".to_owned()));
        },
    };
    if characters as u64 > i64::MAX as u64 {
        return Err(DbError::Integrity("character count exceeds i64".to_owned()));
    }
    Ok((duration_ms as i64, characters as i64))
}

// ── Laws ──

/// A claim that inserts a pending record is settled by one commit: claiming
/// again reports the record pending, committing moves it to committed, and
/// from then on claims and commits report it already committed and write
/// nothing.
pub proof fn claimed_record_commits_once(
    session_id: Seq<char>,
    expected: Seq<char>,
    intent: IntentFingerprint,
    o: FinalizationLedgerClaimOutcome,
    w: LedgerWrite,
    pending: FinalizationRecord,
    committed: FinalizationRecord,
)
    requires
        claim_decided(
            o,
            w,
            session_id,
            expected,
            Some(Some(DurableSessionState::FinalizationPending)),
            intent,
            StoredFinalization::Missing,
        ),
        w == LedgerWrite::InsertPending,
        pending.fingerprint@ == expected && pending.state == RecordState::Pending,
        committed.fingerprint@ == expected && committed.state == RecordState::Committed,
    ensures
        o is Claimed,
        forall|o2: FinalizationLedgerClaimOutcome, w2: LedgerWrite|
            claim_decided(
                o2,
                w2,
                session_id,
                expected,
                Some(Some(DurableSessionState::FinalizationPending)),
                intent,
                StoredFinalization::Found(pending),
            ) ==> o2 is AlreadyPending && w2 == LedgerWrite::Keep,
        forall|o3: FinalizationCommitOutcome, w3: LedgerWrite|
            commit_decided(
                o3,
                w3,
                session_id,
                expected,
                Some(Some(DurableSessionState::FinalizationPending)),
                intent,
                StoredFinalization::Found(pending),
            ) ==> o3 is Committed && w3 == LedgerWrite::MarkCommitted,
        forall|o4: FinalizationLedgerClaimOutcome, w4: LedgerWrite|
            claim_decided(
                o4,
                w4,
                session_id,
                expected,
                Some(Some(DurableSessionState::FinalizationPending)),
                intent,
                StoredFinalization::Found(committed),
            ) ==> o4 is AlreadyCommitted && w4 == LedgerWrite::Keep,
        forall|o5: FinalizationCommitOutcome, w5: LedgerWrite|
            commit_decided(
                o5,
                w5,
                session_id,
                expected,
                Some(Some(DurableSessionState::FinalizationPending)),
                intent,
                StoredFinalization::Found(committed),
            ) ==> o5 is AlreadyCommitted && w5 == LedgerWrite::Keep,
{
}

/// A completion intent whose fingerprint differs from the expected one is
/// reported as a conflict by claims, commits and the finalizer alike, and
/// nothing is written.
pub proof fn fingerprint_conflict_writes_nothing(
    session_id: Seq<char>,
    expected: Seq<char>,
    fingerprint: String,
    stored: StoredFinalization,
    o: FinalizationLedgerClaimOutcome,
    w: LedgerWrite,
    c: FinalizationCommitOutcome,
    cw: LedgerWrite,
    g: FinalizationGate,
    state: DurableSessionState,
)
    requires
        fingerprint@ != expected,
        claim_decided(
            o,
            w,
            session_id,
            expected,
            Some(Some(DurableSessionState::FinalizationPending)),
            IntentFingerprint::Found(fingerprint),
            stored,
        ),
        commit_decided(
            c,
            cw,
            session_id,
            expected,
            Some(Some(DurableSessionState::FinalizationPending)),
            IntentFingerprint::Found(fingerprint),
            stored,
        ),
        gate_decided(
            g,
            session_id,
            expected,
            Some(state),
            StoredIntent::Found(fingerprint),
            stored,
        ),
    ensures
        o matches FinalizationLedgerClaimOutcome::Conflict(k) && conflict_of(
            k,
            session_id,
            expected,
            fingerprint@,
        ),
        w == LedgerWrite::Keep,
        c matches FinalizationCommitOutcome::Conflict(k) && conflict_of(
            k,
            session_id,
            expected,
            fingerprint@,
        ),
        cw == LedgerWrite::Keep,
        g matches FinalizationGate::Finish(FinalizationOutcome::Conflict(k)) && conflict_of(
            k,
            session_id,
            expected,
            fingerprint@,
        ),
{
}

/// The finalizer applies the completion effects only to a session awaiting
/// finalization whose intent and pending record both carry the expected
/// fingerprint.
pub proof fn effects_apply_only_to_a_pending_claim(
    g: FinalizationGate,
    session_id: Seq<char>,
    expected: Seq<char>,
    session: Option<DurableSessionState>,
    intent: StoredIntent,
    stored: StoredFinalization,
)
    requires
        gate_decided(g, session_id, expected, session, intent, stored),
        g is RequireNoStoredTest,
    ensures
        session == Some(DurableSessionState::FinalizationPending),
        intent matches StoredIntent::Found(fp) && fp@ == expected,
        stored matches StoredFinalization::Found(rec) && rec.fingerprint@ == expected && rec.state
            == RecordState::Pending,
{
}

/// Finalizing is idempotent: once a pending claim was finalized (the
/// session finalized, its record committed, its test stored as the intent
/// says), finalizing again reports the session already finalized.
pub proof fn finalization_retry_is_idempotent(
    session_id: Seq<char>,
    expected: Seq<char>,
    intent: StoredIntent,
    pending: FinalizationRecord,
    committed: FinalizationRecord,
    first: FinalizationGate,
    retry: FinalizationGate,
)
    requires
        gate_decided(
            first,
            session_id,
            expected,
            Some(DurableSessionState::FinalizationPending),
            intent,
            StoredFinalization::Found(pending),
        ),
        first is RequireNoStoredTest,
        committed.fingerprint@ == pending.fingerprint@ && committed.state == RecordState::Committed,
        gate_decided(
            retry,
            session_id,
            expected,
            Some(DurableSessionState::Finalized),
            intent,
            StoredFinalization::Found(committed),
        ),
    ensures
        retry is VerifyStoredTest,
        verified_outcome(Some(true)) is AlreadyFinalized,
{
}

/// A quarantine never rewrites a terminal record: a committed record stays
/// committed and a quarantined one keeps its reason, whatever the intent
/// and the requested reason.
pub proof fn quarantine_keeps_terminal_records(
    session_id: Seq<char>,
    expected: Seq<char>,
    reason: FinalizationQuarantineReason,
    intent: IntentFingerprint,
    rec: FinalizationRecord,
    o: FinalizationCommitOutcome,
    w: LedgerWrite,
)
    requires
        rec.fingerprint@ == expected,
        rec.state != RecordState::Pending,
        quarantine_decided(
            o,
            w,
            session_id,
            expected,
            reason,
            intent,
            StoredFinalization::Found(rec),
        ),
    ensures
        w == LedgerWrite::Keep,
        rec.state == RecordState::Committed ==> o == (FinalizationCommitOutcome::NotPending {
            state: FinalizationLedgerState::Committed,
        }),
        rec.state matches RecordState::Quarantined(r) ==> o
            == FinalizationCommitOutcome::Quarantined(r),
{
}

/// A loaded finalization record always agrees with the durable intent's
/// fingerprint.
pub proof fn loaded_record_matches_intent(
    o: FinalizationLoadOutcome,
    intent: IntentFingerprint,
    stored: StoredFinalization,
)
    requires
        load_decided(o, intent, stored),
        o is Found,
    ensures
        o matches FinalizationLoadOutcome::Found(r) && intent matches IntentFingerprint::Found(fp)
            && fp@ == r.fingerprint@,
{
}

} // verus!

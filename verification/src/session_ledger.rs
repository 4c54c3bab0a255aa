//! Decisions of the session recovery ledger: recording that a session
//! started, and recording its immutable completion intent.
//!
//! The storage adapter reads the rows and performs the writes in one
//! transaction; what each operation concludes, and the write it asks for,
//! is decided here.

use vstd::prelude::*;
use vstd::utf8::encode_utf8;

use crate::error::DbError;
use crate::finalization::{DurableSessionState, QuarantineReason};
use crate::text::str_equals;

verus! {

/// Longest accepted mode type, in UTF-8 bytes.
pub const MAX_MODE_TYPE_BYTES: usize = 64;

/// Longest accepted language, in UTF-8 bytes.
pub const MAX_LANGUAGE_BYTES: usize = 64;

/// Whether a start's mode type and language are non-empty and within their
/// byte limits.
pub fn start_fields_acceptable(mode_type: &str, language: &str) -> (b: bool)
    ensures
        b == (0 < mode_type@.len() && encode_utf8(mode_type@).len() as usize <= MAX_MODE_TYPE_BYTES && 0
            < language@.len() && encode_utf8(language@).len() as usize <= MAX_LANGUAGE_BYTES),
{
    !mode_type.is_empty() && mode_type.len() <= MAX_MODE_TYPE_BYTES && !language.is_empty()
        && language.len() <= MAX_LANGUAGE_BYTES
}

/// Two intents of one session that disagree.
#[derive(Debug, Clone)]
pub struct CompletionIntentConflict {
    pub existing_session_id: String,
    pub incoming_session_id: String,
    pub existing_fingerprint: String,
    pub incoming_fingerprint: String,
}

/// What conflicts with an incoming record.
#[derive(Debug, Clone)]
pub enum LedgerConflict {
    SessionStart(String),
    CompletionIntent(CompletionIntentConflict),
}

/// Result of a ledger mutation.
#[derive(Debug, Clone)]
pub enum LedgerMutationOutcome {
    Created,
    AlreadyExistsIdentical,
    NotFound,
    Quarantined(QuarantineReason),
    Conflicting(LedgerConflict),
}

// ── Session start ──

/// The stored start of a session: its state (`None` when it does not
/// parse), its fields, and whether its stored mode descriptor equals the
/// incoming one.
#[derive(Debug, Clone)]
pub struct StartedRecord {
    pub state: Option<DurableSessionState>,
    pub mode_type: String,
    pub language: String,
    pub started_at: String,
    pub descriptor_matches: bool,
}

/// The write a start asks for.
#[derive(Debug, Clone, Copy, PartialEq, Eq, Structural)]
pub enum StartWrite {
    Keep,
    /// Insert the session as running.
    InsertRunning,
}

/// Recording the start of `session_id` with these fields decides `o` and
/// `w`, given the stored start if there is one.
pub open spec fn start_decided(
    o: LedgerMutationOutcome,
    w: StartWrite,
    session_id: Seq<char>,
    existing: Option<StartedRecord>,
    mode_type: Seq<char>,
    language: Seq<char>,
    started_at: Seq<char>,
) -> bool {
    match existing {
        None => o is Created && w == StartWrite::InsertRunning,
        Some(r) => w == StartWrite::Keep && if r.state == Some(DurableSessionState::Running)
            && r.mode_type@ == mode_type && r.language@ == language && r.started_at@ == started_at
            && r.descriptor_matches {
            o is AlreadyExistsIdentical
        } else if r.state is None {
            o == LedgerMutationOutcome::Quarantined(QuarantineReason::InvalidStateRecord)
        } else {
            o matches LedgerMutationOutcome::Conflicting(LedgerConflict::SessionStart(s)) && s@
                == session_id
        },
    }
}

/// Decides recording the start of `session_id`: a new session is inserted
/// as running; repeating an identical start changes nothing; any other
/// stored start conflicts.
pub fn decide_record_started(
    session_id: &str,
    existing: &Option<StartedRecord>,
    mode_type: &str,
    language: &str,
    started_at: &str,
) -> (r: (LedgerMutationOutcome, StartWrite))
    ensures
        start_decided(r.0, r.1, session_id@, *existing, mode_type@, language@, started_at@),
{
    match existing {
        None => (LedgerMutationOutcome::Created, StartWrite::InsertRunning),
        Some(rec) => {
            let identical = rec.state == Some(DurableSessionState::Running) && str_equals(
                rec.mode_type.as_str(),
                mode_type,
            ) && str_equals(rec.language.as_str(), language) && str_equals(
                rec.started_at.as_str(),
                started_at,
            ) && rec.descriptor_matches;
            if identical {
                (LedgerMutationOutcome::AlreadyExistsIdentical, StartWrite::Keep)
            } else if rec.state.is_none() {
                (
                    LedgerMutationOutcome::Quarantined(QuarantineReason::InvalidStateRecord),
                    StartWrite::Keep,
                )
            } else {
                (
                    LedgerMutationOutcome::Conflicting(
                        LedgerConflict::SessionStart(session_id.to_owned()),
                    ),
                    StartWrite::Keep,
                )
            }
        },
    }
}

// ── Completion intent ──

/// The header of a stored completion intent, as the application reads it.
#[derive(Debug, Clone)]
pub enum IntentMetadata {
    Missing,
    UnsupportedCanonicalizationVersion,
    UnsupportedVersion,
    Corrupt,
    /// A supported header; the session id and fingerprint when they parse.
    Present { session_id: Option<String>, fingerprint: Option<String> },
}

/// Why a header that is not present and supported quarantines a session.
pub open spec fn metadata_reason(m: IntentMetadata) -> QuarantineReason {
    match m {
        IntentMetadata::Missing => QuarantineReason::MissingCompletionIntent,
        IntentMetadata::UnsupportedCanonicalizationVersion => QuarantineReason::UnsupportedCanonicalizationVersion,
        IntentMetadata::UnsupportedVersion => QuarantineReason::UnsupportedIntentVersion,
        IntentMetadata::Corrupt => QuarantineReason::CorruptCompletionPayload,
        IntentMetadata::Present { .. } => QuarantineReason::InconsistentDurableMetadata,
    }
}

/// Why a stored intent header quarantines its session.
pub fn metadata_quarantine_reason(m: &IntentMetadata) -> (r: QuarantineReason)
    ensures
        r == metadata_reason(*m),
{
    match m {
        IntentMetadata::Missing => QuarantineReason::MissingCompletionIntent,
        IntentMetadata::UnsupportedCanonicalizationVersion => QuarantineReason::UnsupportedCanonicalizationVersion,
        IntentMetadata::UnsupportedVersion => QuarantineReason::UnsupportedIntentVersion,
        IntentMetadata::Corrupt => QuarantineReason::CorruptCompletionPayload,
        IntentMetadata::Present { .. } => QuarantineReason::InconsistentDurableMetadata,
    }
}

/// A stored completion intent as read: its header, its payload bytes and
/// recorded length when they have the right types, and the session id of
/// the payload when it decodes under the stored fingerprint.
#[derive(Debug, Clone)]
pub struct StoredIntentFacts {
    pub metadata: IntentMetadata,
    pub payload: Option<Vec<u8>>,
    pub recorded_length: Option<usize>,
    pub decoded_session_id: Option<String>,
}

/// An incoming completion intent: its session, fingerprint and canonical
/// payload.
#[derive(Debug, Clone)]
pub struct IncomingIntent {
    pub session_id: String,
    pub fingerprint: String,
    pub canonical_payload: Vec<u8>,
}

/// Comparing the stored intent `s` with the incoming one `i` gives `o`.
pub open spec fn comparison_decided(o: LedgerMutationOutcome, s: StoredIntentFacts, i: IncomingIntent) -> bool {
    match s.metadata {
        IntentMetadata::Present { session_id: Some(sid), fingerprint: Some(fp) } => match (
            s.payload,
            s.recorded_length,
        ) {
            (Some(payload), Some(len)) => if len != payload@.len() || s.decoded_session_id is None {
                o == LedgerMutationOutcome::Quarantined(QuarantineReason::CorruptCompletionPayload)
            } else if sid@ != i.session_id@ || s.decoded_session_id->Some_0@ != i.session_id@ {
                o == LedgerMutationOutcome::Quarantined(
                    QuarantineReason::InconsistentDurableMetadata,
                )
            } else if fp@ != i.fingerprint@ {
                o matches LedgerMutationOutcome::Conflicting(LedgerConflict::CompletionIntent(c))
                    && c.existing_session_id@ == sid@ && c.incoming_session_id@ == i.session_id@
                    && c.existing_fingerprint@ == fp@ && c.incoming_fingerprint@ == i.fingerprint@
            } else if payload@ != i.canonical_payload@ {
                o == LedgerMutationOutcome::Quarantined(QuarantineReason::CorruptCompletionPayload)
            } else {
                o is AlreadyExistsIdentical
            },
            _ => o == LedgerMutationOutcome::Quarantined(
                QuarantineReason::CorruptCompletionPayload,
            ),
        },
        IntentMetadata::Present { .. } => o == LedgerMutationOutcome::Quarantined(
            QuarantineReason::CorruptCompletionPayload,
        ),
        m => o == LedgerMutationOutcome::Quarantined(metadata_reason(m)),
    }
}

fn bytes_equal(a: &Vec<u8>, b: &Vec<u8>) -> (r: bool)
    ensures
        r == (a@ == b@),
{
    if a.len() != b.len() {
        return false;
    }
    let mut i: usize = 0;
    while i < a.len()
        invariant
            i <= a@.len(),
            a@.len() == b@.len(),
            forall|k: int| 0 <= k < i ==> a@[k] == b@[k],
        decreases a.len() - i,
    {
        if a[i] != b[i] {
            return false;
        }
        i = i + 1;
    }
    assert(a@ =~= b@);
    true
}

fn corrupt_payload() -> (o: LedgerMutationOutcome)
    ensures
        o == LedgerMutationOutcome::Quarantined(QuarantineReason::CorruptCompletionPayload),
{
    LedgerMutationOutcome::Quarantined(QuarantineReason::CorruptCompletionPayload)
}

/// Compares a stored completion intent with an incoming one: an identical
/// intent is accepted again, a different fingerprint conflicts, anything
/// unreadable or inconsistent quarantines the session.
pub fn compare_stored_intent(stored: &StoredIntentFacts, incoming: &IncomingIntent) -> (o:
    LedgerMutationOutcome)
    ensures
        comparison_decided(o, *stored, *incoming),
{
    let (sid, fp) = match &stored.metadata {
        IntentMetadata::Present { session_id, fingerprint } => match (session_id, fingerprint) {
            (Some(sid), Some(fp)) => (sid, fp),
            _ => {
                return corrupt_payload();
            },
        },
        m => {
            return LedgerMutationOutcome::Quarantined(metadata_quarantine_reason(m));
        },
    };
    let payload = match &stored.payload {
        Some(p) => p,
        None => {
            return corrupt_payload();
        },
    };
    let len = match stored.recorded_length {
        Some(l) => l,
        None => {
            return corrupt_payload();
        },
    };
    if len != payload.len() {
        return corrupt_payload();
    }
    let decoded = match &stored.decoded_session_id {
        Some(d) => d,
        None => {
            return corrupt_payload();
        },
    };
    if !str_equals(sid.as_str(), incoming.session_id.as_str()) || !str_equals(
        decoded.as_str(),
        incoming.session_id.as_str(),
    ) {
        return LedgerMutationOutcome::Quarantined(QuarantineReason::InconsistentDurableMetadata);
    }
    if !str_equals(fp.as_str(), incoming.fingerprint.as_str()) {
        return LedgerMutationOutcome::Conflicting(
            LedgerConflict::CompletionIntent(
                CompletionIntentConflict {
                    existing_session_id: sid.clone(),
                    incoming_session_id: incoming.session_id.clone(),
                    existing_fingerprint: fp.clone(),
                    incoming_fingerprint: incoming.fingerprint.clone(),
                },
            ),
        );
    }
    if !bytes_equal(payload, &incoming.canonical_payload) {
        return corrupt_payload();
    }
    LedgerMutationOutcome::AlreadyExistsIdentical
}

/// The write recording an intent asks for.
#[derive(Debug, Clone, Copy, PartialEq, Eq, Structural)]
pub enum IntentWrite {
    Keep,
    /// Insert the intent and move the running session to awaiting
    /// persistence.
    InsertAndAwait,
    /// Quarantine the session row for the reason.
    QuarantineRow(QuarantineReason),
}

/// Recording `incoming` decides `o` and `w`, given the session state read
/// (`None`: no session row; `Some(None)`: a state that does not parse) and
/// the stored intent if there is one.
pub open spec fn intent_decided(
    o: LedgerMutationOutcome,
    w: IntentWrite,
    session: Option<Option<DurableSessionState>>,
    stored: Option<StoredIntentFacts>,
    incoming: IncomingIntent,
) -> bool {
    match session {
        None => o is NotFound && w == IntentWrite::Keep,
        Some(state) => match stored {
            Some(s) => comparison_decided(o, s, incoming) && w == IntentWrite::Keep,
            None => match state {
                Some(DurableSessionState::Running) => o is Created && w == IntentWrite::InsertAndAwait,
                Some(DurableSessionState::AwaitingPersistence) | Some(
                    DurableSessionState::FinalizationPending,
                ) => o == LedgerMutationOutcome::Quarantined(
                    QuarantineReason::MissingCompletionIntent,
                ) && w == IntentWrite::QuarantineRow(QuarantineReason::MissingCompletionIntent),
                Some(_) => o == LedgerMutationOutcome::Quarantined(
                    QuarantineReason::InvalidStateRecord,
                ) && w == IntentWrite::Keep,
                None => o == LedgerMutationOutcome::Quarantined(
                    QuarantineReason::InvalidStateRecord,
                ) && w == IntentWrite::QuarantineRow(QuarantineReason::InvalidStateRecord),
            },
        },
    }
}

/// Decides recording the completion intent `incoming`: only a running
/// session without an intent takes it; an intent already stored is
/// compared with it.
pub fn decide_record_intent(
    session: Option<Option<DurableSessionState>>,
    stored: &Option<StoredIntentFacts>,
    incoming: &IncomingIntent,
) -> (r: (LedgerMutationOutcome, IntentWrite))
    ensures
        intent_decided(r.0, r.1, session, *stored, *incoming),
{
    let state = match session {
        None => {
            return (LedgerMutationOutcome::NotFound, IntentWrite::Keep);
        },
        Some(state) => state,
    };
    match stored {
        Some(s) => {
            return (compare_stored_intent(s, incoming), IntentWrite::Keep);
        },
        None => {},
    }
    match state {
        Some(DurableSessionState::Running) => (LedgerMutationOutcome::Created, IntentWrite::InsertAndAwait),
        Some(DurableSessionState::AwaitingPersistence) | Some(
            DurableSessionState::FinalizationPending,
        ) => (
            LedgerMutationOutcome::Quarantined(QuarantineReason::MissingCompletionIntent),
            IntentWrite::QuarantineRow(QuarantineReason::MissingCompletionIntent),
        ),
        Some(_) => (
            LedgerMutationOutcome::Quarantined(QuarantineReason::InvalidStateRecord),
            IntentWrite::Keep,
        ),
        None => (
            LedgerMutationOutcome::Quarantined(QuarantineReason::InvalidStateRecord),
            IntentWrite::QuarantineRow(QuarantineReason::InvalidStateRecord),
        ),
    }
}

/// Checks the row count of the move of a running session to awaiting
/// persistence.
pub fn confirm_awaiting(changed: usize) -> (r: Result<(), DbError>)
    ensures
        r is Ok == (changed == 1),
        r matches Err(e) ==> e matches DbError::Integrity(m) && m@
            == "session state changed during completion intent recording"@,
{
    if changed != 1 {
        return Err(
            DbError::Integrity("session state changed during completion intent recording".to_owned()),
        );
    }
    Ok(())
}

// ── Loading an intent ──

/// How the stored canonical payload decodes under the stored fingerprint.
#[derive(Debug, Clone)]
pub enum DecodedIntent {
    /// It decodes; the session id inside it.
    Decoded(String),
    UnsupportedCanonicalizationVersion,
    UnsupportedVersion,
    Corrupt,
}

/// What loading the completion intent of a session finds.
#[derive(Debug, Clone, Copy, PartialEq, Eq, Structural)]
pub enum IntentLoadOutcome {
    NotFound,
    Found,
    UnsupportedCanonicalizationVersion,
    UnsupportedVersion,
    Corrupt,
    Quarantined(QuarantineReason),
}

/// What loading the stored intent of session `sid` gives: the header
/// first, then the session id it names, then the payload's bytes and
/// recorded length (at most `max_payload` bytes), then how the payload
/// decodes.
pub open spec fn intent_load_decided(
    stored: Option<StoredIntentFacts>,
    sid: Seq<char>,
    max_payload: usize,
    decoded: DecodedIntent,
) -> Result<IntentLoadOutcome, Seq<char>> {
    match stored {
        None => Ok(IntentLoadOutcome::NotFound),
        Some(s) => match s.metadata {
            IntentMetadata::UnsupportedCanonicalizationVersion => Ok(
                IntentLoadOutcome::UnsupportedCanonicalizationVersion,
            ),
            IntentMetadata::UnsupportedVersion => Ok(IntentLoadOutcome::UnsupportedVersion),
            IntentMetadata::Missing | IntentMetadata::Corrupt => Ok(IntentLoadOutcome::Corrupt),
            IntentMetadata::Present { session_id, fingerprint } => if fingerprint is None {
                Err("missing parsed fingerprint"@)
            } else if !(session_id matches Some(stored_sid) && stored_sid@ == sid) {
                Ok(IntentLoadOutcome::Quarantined(QuarantineReason::InconsistentDurableMetadata))
            } else {
                match (s.payload, s.recorded_length) {
                    (Some(payload), Some(len)) => if len != payload@.len() || payload@.len()
                        > max_payload {
                        Ok(IntentLoadOutcome::Corrupt)
                    } else {
                        match decoded {
                            DecodedIntent::Decoded(d) => if d@ == sid {
                                Ok(IntentLoadOutcome::Found)
                            } else {
                                Ok(
                                    IntentLoadOutcome::Quarantined(
                                        QuarantineReason::InconsistentDurableMetadata,
                                    ),
                                )
                            },
                            DecodedIntent::UnsupportedCanonicalizationVersion => Ok(
                                IntentLoadOutcome::UnsupportedCanonicalizationVersion,
                            ),
                            DecodedIntent::UnsupportedVersion => Ok(
                                IntentLoadOutcome::UnsupportedVersion,
                            ),
                            DecodedIntent::Corrupt => Ok(IntentLoadOutcome::Corrupt),
                        }
                    },
                    _ => Ok(IntentLoadOutcome::Corrupt),
                }
            },
        },
    }
}

/// Decides what loading the completion intent of session `session_id`
/// finds, from the stored row (`None` when there is none) and from how its
/// payload decodes. A supported header without a parsed fingerprint is an
/// integrity error.
pub fn decide_load_intent(
    stored: Option<&StoredIntentFacts>,
    session_id: &str,
    max_payload: usize,
    decoded: &DecodedIntent,
) -> (r: Result<IntentLoadOutcome, DbError>)
    ensures
        match intent_load_decided(
            match stored {
                Some(s) => Some(*s),
                None => None,
            },
            session_id@,
            max_payload,
            *decoded,
        ) {
            Ok(o) => r == Ok::<IntentLoadOutcome, DbError>(o),
            Err(m) => r matches Err(e) && e matches DbError::Integrity(msg) && msg@ == m,
        },
{
    let s = match stored {
        None => {
            return Ok(IntentLoadOutcome::NotFound);
        },
        Some(s) => s,
    };
    match &s.metadata {
        IntentMetadata::UnsupportedCanonicalizationVersion => {
            return Ok(IntentLoadOutcome::UnsupportedCanonicalizationVersion);
        },
        IntentMetadata::UnsupportedVersion => {
            return Ok(IntentLoadOutcome::UnsupportedVersion);
        },
        IntentMetadata::Missing | IntentMetadata::Corrupt => {
            return Ok(IntentLoadOutcome::Corrupt);
        },
        IntentMetadata::Present { session_id: stored_sid, fingerprint } => {
            if fingerprint.is_none() {
                return Err(DbError::Integrity("missing parsed fingerprint".to_owned()));
            }
            let same = match stored_sid {
                Some(x) => str_equals(x.as_str(), session_id),
                None => false,
            };
            if !same {
                return Ok(IntentLoadOutcome::Quarantined(QuarantineReason::InconsistentDurableMetadata));
            }
        },
    }
    let payload = match &s.payload {
        Some(p) => p,
        None => {
            return Ok(IntentLoadOutcome::Corrupt);
        },
    };
    let len = match s.recorded_length {
        Some(l) => l,
        None => {
            return Ok(IntentLoadOutcome::Corrupt);
        },
    };
    if len != payload.len() || payload.len() > max_payload {
        return Ok(IntentLoadOutcome::Corrupt);
    }
    match decoded {
        DecodedIntent::Decoded(d) => {
            if str_equals(d.as_str(), session_id) {
                Ok(IntentLoadOutcome::Found)
            } else {
                Ok(IntentLoadOutcome::Quarantined(QuarantineReason::InconsistentDurableMetadata))
            }
        },
        DecodedIntent::UnsupportedCanonicalizationVersion => Ok(
            IntentLoadOutcome::UnsupportedCanonicalizationVersion,
        ),
        DecodedIntent::UnsupportedVersion => Ok(IntentLoadOutcome::UnsupportedVersion),
        DecodedIntent::Corrupt => Ok(IntentLoadOutcome::Corrupt),
    }
}

/// An intent that a repeated record accepts as identical loads back for its
/// session, when its payload fits the load limit and decodes to the session
/// that was recorded.
pub proof fn accepted_intent_loads_back(
    stored: StoredIntentFacts,
    incoming: IncomingIntent,
    o: LedgerMutationOutcome,
    max_payload: usize,
)
    requires
        comparison_decided(o, stored, incoming),
        o is AlreadyExistsIdentical,
        stored.payload matches Some(p) && p@.len() <= max_payload,
    ensures
        stored.decoded_session_id is Some,
        intent_load_decided(
            Some(stored),
            incoming.session_id@,
            max_payload,
            DecodedIntent::Decoded(stored.decoded_session_id->Some_0),
        ) == Ok::<IntentLoadOutcome, Seq<char>>(IntentLoadOutcome::Found),
{
}

// ── State transitions ──

/// The durable state machine's verdict on moving a session from its
/// stored state to a target state.
#[derive(Debug, Clone, Copy, PartialEq, Eq, Structural)]
pub enum StateTransitionVerdict {
    Idempotent,
    Valid,
    Invalid,
    ForbiddenFromTerminal,
}

/// What a state transition writes.
#[derive(Debug, Clone, Copy, PartialEq, Eq, Structural)]
pub enum TransitionWrite {
    Nothing,
    /// Quarantine the row, unless its state is already terminal.
    QuarantineRow(QuarantineReason),
    /// Store the target state with the given reasons.
    SetState(DurableSessionState),
}

/// The outcome and the write of a transition: `stored` is the stored state
/// (`None` without a row, `Some(None)` when it does not parse), `verdict`
/// the state machine's verdict on the stored state and the target.
pub open spec fn transition_decided(
    stored: Option<Option<DurableSessionState>>,
    target: DurableSessionState,
    verdict: StateTransitionVerdict,
) -> (LedgerMutationOutcome, TransitionWrite) {
    match stored {
        None => (LedgerMutationOutcome::NotFound, TransitionWrite::Nothing),
        Some(None) => (
            LedgerMutationOutcome::Quarantined(QuarantineReason::InvalidStateRecord),
            TransitionWrite::QuarantineRow(QuarantineReason::InvalidStateRecord),
        ),
        Some(Some(_)) => match verdict {
            StateTransitionVerdict::Idempotent => (
                LedgerMutationOutcome::AlreadyExistsIdentical,
                TransitionWrite::Nothing,
            ),
            StateTransitionVerdict::Valid => (
                LedgerMutationOutcome::Created,
                TransitionWrite::SetState(target),
            ),
            _ => (
                LedgerMutationOutcome::Quarantined(QuarantineReason::InvalidStateRecord),
                TransitionWrite::Nothing,
            ),
        },
    }
}

/// Decides a move of a session to `target` (interrupted, aborted or
/// quarantined): a missing row is not found, a stored state that does not
/// parse quarantines the row, and otherwise the state machine's verdict
/// decides between nothing to do, the move, and a quarantine outcome that
/// writes nothing.
pub fn decide_transition(
    stored: Option<Option<DurableSessionState>>,
    target: DurableSessionState,
    verdict: StateTransitionVerdict,
) -> (r: (LedgerMutationOutcome, TransitionWrite))
    ensures
        r == transition_decided(stored, target, verdict),
{
    match stored {
        None => (LedgerMutationOutcome::NotFound, TransitionWrite::Nothing),
        Some(None) => (
            LedgerMutationOutcome::Quarantined(QuarantineReason::InvalidStateRecord),
            TransitionWrite::QuarantineRow(QuarantineReason::InvalidStateRecord),
        ),
        Some(Some(_)) => match verdict {
            StateTransitionVerdict::Idempotent => (
                LedgerMutationOutcome::AlreadyExistsIdentical,
                TransitionWrite::Nothing,
            ),
            StateTransitionVerdict::Valid => (
                LedgerMutationOutcome::Created,
                TransitionWrite::SetState(target),
            ),
            StateTransitionVerdict::Invalid | StateTransitionVerdict::ForbiddenFromTerminal => (
                LedgerMutationOutcome::Quarantined(QuarantineReason::InvalidStateRecord),
                TransitionWrite::Nothing,
            ),
        },
    }
}

/// Recording an identical intent again is accepted and writes nothing: the
/// intent a running session took is, once stored, compared as identical.
pub proof fn identical_intent_is_accepted_again(
    incoming: IncomingIntent,
    stored: StoredIntentFacts,
    state: Option<DurableSessionState>,
    o: LedgerMutationOutcome,
    w: IntentWrite,
)
    requires
        stored.metadata matches IntentMetadata::Present { session_id: Some(sid), fingerprint: Some(fp) }
            && sid@ == incoming.session_id@ && fp@ == incoming.fingerprint@,
        stored.payload matches Some(p) && p@ == incoming.canonical_payload@,
        stored.recorded_length matches Some(n) && n == incoming.canonical_payload@.len(),
        stored.decoded_session_id matches Some(d) && d@ == incoming.session_id@,
        intent_decided(o, w, Some(state), Some(stored), incoming),
    ensures
        o is AlreadyExistsIdentical,
        w == IntentWrite::Keep,
{
}

/// An intent whose fingerprint differs from the stored one never replaces
/// it: the outcome is a conflict or a quarantine, and nothing is written.
pub proof fn different_intent_never_replaces_the_stored_one(
    incoming: IncomingIntent,
    stored: StoredIntentFacts,
    state: Option<DurableSessionState>,
    o: LedgerMutationOutcome,
    w: IntentWrite,
)
    requires
        stored.metadata matches IntentMetadata::Present { fingerprint: Some(fp), .. } && fp@
            != incoming.fingerprint@,
        intent_decided(o, w, Some(state), Some(stored), incoming),
    ensures
        o is Conflicting || o is Quarantined,
        w == IntentWrite::Keep,
{
}

} // verus!

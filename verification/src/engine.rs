//! The core engine: one typing session at a time, its lifecycle from start
//! to durable completion, and the replay frames it records.

use vstd::prelude::*;

use crate::domain::{CharStatus, KeyResult, SessionId, SessionState, UtcTimestamp, VisiblePos};
use crate::input::{classify_key, KeyAction, KeyClassifier, KeyEvent};
use crate::modes::{ModeConfig, ModeResult, ModeType, SessionMode, TestMode};
use crate::stats::{
    char_stat_of, has_key, keys_distinct, opt_stats_view, stats_describe, tracked_counts, FinalStats, StatsView, HeatmapBuilder, LiveCounts, StatisticsEngine,
};
use crate::domain::CharStat;
use crate::typing::{
    backspace_step, fresh_model, print_step, TextBuffer, TypingModel, TypingResult,
};

verus! {

/// A running session: its identity, its mode and its buffer.
pub struct TestSession {
    pub session_id: SessionId,
    pub mode: SessionMode,
    pub buffer: TextBuffer,
}

/// One recorded keystroke of a session.
#[derive(Debug, Clone, PartialEq, Eq)]
pub struct ReplayFrame {
    pub timestamp_ms: u64,
    pub key: String,
    pub caret_pos: usize,
    pub char_status: CharStatus,
    pub expected_char: char,
    pub typed_char: Option<char>,
}

/// What the interface learns when a session starts.
#[derive(Debug, Clone)]
pub struct TestSessionInfo {
    pub session_id: String,
    pub text: String,
    pub text_length: usize,
    pub mode_type: String,
    pub mode_config: ModeConfig,
    pub language: String,
}

/// What the interface learns after each key.
#[derive(Debug, Clone)]
pub struct EngineOutput {
    pub session_state: SessionState,
    pub key_result: KeyResult,
    pub caret_pos: usize,
    pub visible_pos: VisiblePos,
    pub live_stats: Option<LiveCounts>,
    pub test_complete: Option<FinalStats>,
}

/// Lifecycle operations of the engine.
pub enum LifecycleOp {
    Start,
    Abort,
    Reset,
    BeginPersistence,
    MarkPersisted,
    MarkPersistenceFailed,
}

/// The state after a lifecycle operation, and whether it was accepted.
/// A completed result is never dropped while it is stored or awaits a
/// retry; a new session starts only from an empty or a stored one.
pub open spec fn lifecycle(s: SessionState, op: LifecycleOp) -> (SessionState, bool) {
    match op {
        LifecycleOp::Start => if s == SessionState::Idle || s == SessionState::Persisted {
            (SessionState::Running, true)
        } else {
            (s, false)
        },
        LifecycleOp::Abort => if s == SessionState::AwaitingPersistence || s
            == SessionState::Persisting {
            (s, false)
        } else {
            (SessionState::Idle, true)
        },
        LifecycleOp::Reset => (s, s == SessionState::Running),
        LifecycleOp::BeginPersistence => if s == SessionState::AwaitingPersistence {
            (SessionState::Persisting, true)
        } else {
            (s, false)
        },
        LifecycleOp::MarkPersisted => if s == SessionState::Persisting {
            (SessionState::Persisted, true)
        } else {
            (s, false)
        },
        LifecycleOp::MarkPersistenceFailed => if s == SessionState::Persisting {
            (SessionState::AwaitingPersistence, true)
        } else {
            (s, false)
        },
    }
}

/// A completed result that is being stored, or that awaits a retry, cannot
/// be discarded: starting a new test, aborting and resetting are all refused
/// and leave the state as it was.
pub proof fn pending_result_cannot_be_discarded(s: SessionState)
    requires
        s == SessionState::AwaitingPersistence || s == SessionState::Persisting,
    ensures
        lifecycle(s, LifecycleOp::Start) == (s, false),
        lifecycle(s, LifecycleOp::Abort) == (s, false),
        lifecycle(s, LifecycleOp::Reset) == (s, false),
{
}

/// Only one caller can claim a completed result for storing: once a claim
/// succeeded, a second claim is refused.
pub proof fn persistence_is_claimed_once(s: SessionState)
    ensures
        lifecycle(s, LifecycleOp::BeginPersistence).1 ==> !lifecycle(
            lifecycle(s, LifecycleOp::BeginPersistence).0,
            LifecycleOp::BeginPersistence,
        ).1,
{
}

/// A failed store makes the result retryable: after a claim and a reported
/// failure the result awaits storing again and can be claimed again, while
/// a second failure report is refused.
pub proof fn failed_store_can_be_retried()
    ensures
        ({
            let claimed = lifecycle(SessionState::AwaitingPersistence, LifecycleOp::BeginPersistence);
            let failed = lifecycle(claimed.0, LifecycleOp::MarkPersistenceFailed);
            &&& claimed == (SessionState::Persisting, true)
            &&& failed == (SessionState::AwaitingPersistence, true)
            &&& !lifecycle(failed.0, LifecycleOp::MarkPersistenceFailed).1
            &&& lifecycle(failed.0, LifecycleOp::BeginPersistence).1
        }),
{
}

/// Only a stored result, or no result, lets a new test start; a started
/// test is running.
pub proof fn start_only_after_storing(s: SessionState)
    ensures
        lifecycle(s, LifecycleOp::Start).1 <==> (s == SessionState::Idle || s
            == SessionState::Persisted),
        lifecycle(s, LifecycleOp::Start).1 ==> lifecycle(s, LifecycleOp::Start).0
            == SessionState::Running,
{
}

/// A result is stored only after it was claimed: marking it stored is
/// accepted exactly in the claimed state.
pub proof fn stored_only_after_claim(s: SessionState)
    ensures
        lifecycle(s, LifecycleOp::MarkPersisted).1 <==> s == SessionState::Persisting,
        lifecycle(s, LifecycleOp::MarkPersistenceFailed).1 <==> s == SessionState::Persisting,
{
}

/// Interface result of a typing-engine outcome.
pub open spec fn key_result_of(r: TypingResult) -> KeyResult {
    match r {
        TypingResult::Correct => KeyResult::Correct,
        TypingResult::Incorrect => KeyResult::Incorrect,
        TypingResult::UndoneCorrect => KeyResult::UndoneCorrect,
        TypingResult::UndoneIncorrect => KeyResult::UndoneIncorrect,
        TypingResult::Noop => KeyResult::Noop,
        TypingResult::TestEnded => KeyResult::TestEnded,
    }
}

/// Typing-engine outcome behind an interface result.
pub open spec fn typing_of(k: KeyResult) -> TypingResult {
    match k {
        KeyResult::Correct => TypingResult::Correct,
        KeyResult::Incorrect => TypingResult::Incorrect,
        KeyResult::UndoneCorrect => TypingResult::UndoneCorrect,
        KeyResult::UndoneIncorrect => TypingResult::UndoneIncorrect,
        KeyResult::Noop => TypingResult::Noop,
        KeyResult::TestEnded => TypingResult::TestEnded,
    }
}

/// What a classified key does to the typing state.
pub open spec fn key_step(m: TypingModel, action: KeyAction, ts: u64) -> (TypingModel, TypingResult) {
    match action {
        KeyAction::Print(ch) => print_step(m, ch, ts),
        KeyAction::Backspace => backspace_step(m),
        _ => (m, TypingResult::Noop),
    }
}

/// Output when no session is running.
pub open spec fn noop_output_spec(s: SessionState) -> EngineOutput {
    EngineOutput {
        session_state: s,
        key_result: KeyResult::Noop,
        caret_pos: 0,
        visible_pos: VisiblePos { row: 0, col: 0 },
        live_stats: None,
        test_complete: None,
    }
}

/// Output once a session is over and its result was delivered.
pub open spec fn terminal_output_spec(s: SessionState) -> EngineOutput {
    EngineOutput {
        session_state: s,
        key_result: KeyResult::TestEnded,
        caret_pos: 0,
        visible_pos: VisiblePos { row: 0, col: 0 },
        live_stats: None,
        test_complete: None,
    }
}

fn calc_visible_pos(caret_pos: usize) -> (v: VisiblePos)
    ensures
        v == (VisiblePos { row: 0, col: caret_pos }),
{
    VisiblePos { row: 0, col: caret_pos }
}

fn noop_output(session_state: SessionState) -> (o: EngineOutput)
    ensures
        o == noop_output_spec(session_state),
{
    EngineOutput {
        session_state,
        key_result: KeyResult::Noop,
        caret_pos: 0,
        visible_pos: VisiblePos { row: 0, col: 0 },
        live_stats: None,
        test_complete: None,
    }
}

fn terminal_output(session_state: SessionState) -> (o: EngineOutput)
    ensures
        o == terminal_output_spec(session_state),
{
    EngineOutput {
        session_state,
        key_result: KeyResult::TestEnded,
        caret_pos: 0,
        visible_pos: VisiblePos { row: 0, col: 0 },
        live_stats: None,
        test_complete: None,
    }
}

fn completed_output(session_state: SessionState, test_complete: Option<FinalStats>) -> (o:
    EngineOutput)
    ensures
        o.session_state == session_state,
        o.key_result == KeyResult::TestEnded,
        o.caret_pos == 0,
        o.live_stats is None,
        opt_stats_view(o.test_complete) == opt_stats_view(test_complete),
{
    EngineOutput {
        session_state,
        key_result: KeyResult::TestEnded,
        caret_pos: 0,
        visible_pos: VisiblePos { row: 0, col: 0 },
        live_stats: None,
        test_complete,
    }
}

/// The core engine.
pub struct CoreEngine {
    session: Option<TestSession>,
    session_state: SessionState,
    stats: StatisticsEngine,
    replay_frames: Vec<ReplayFrame>,
    replay_start_timestamp_ms: Option<u64>,
    completed_stats: Option<FinalStats>,
    completed_at: Option<UtcTimestamp>,
}

impl CoreEngine {
    /// Lifecycle state.
    pub closed spec fn state(&self) -> SessionState {
        self.session_state
    }

    /// Typing state of the current session.
    pub closed spec fn model(&self) -> TypingModel {
        self.session->0.buffer.model()
    }

    /// Whether the current session is a timed one.
    pub closed spec fn is_timed(&self) -> bool {
        self.session matches Some(s) && s.mode is Time
    }

    /// Text of the current session.
    pub closed spec fn text(&self) -> Seq<char> {
        self.session->0.buffer.full_text@
    }

    /// Whether a session is held.
    pub closed spec fn has_session(&self) -> bool {
        self.session is Some
    }

    /// Mode of the current session.
    pub closed spec fn session_mode(&self) -> SessionMode {
        self.session->0.mode
    }

    /// Whether the live tracker's timer has started.
    pub closed spec fn timer_started(&self) -> bool {
        self.stats.tracker.start_time is Some
    }

    /// Recorded replay frames.
    pub closed spec fn frames(&self) -> Seq<ReplayFrame> {
        self.replay_frames@
    }

    /// Timestamp of the first recorded frame.
    pub closed spec fn replay_start(&self) -> Option<u64> {
        self.replay_start_timestamp_ms
    }

    /// Live keystroke counters.
    pub closed spec fn counts(&self) -> (usize, usize, usize, usize) {
        self.stats.tracker.counts()
    }

    /// Completed result kept for storing.
    pub closed spec fn completed(&self) -> Option<StatsView> {
        opt_stats_view(self.completed_stats)
    }

    /// Wall-clock completion time recorded for the result.
    pub closed spec fn completed_time(&self) -> Option<UtcTimestamp> {
        self.completed_at
    }

    /// Identity of the current session.
    pub closed spec fn session_id_spec(&self) -> Option<SessionId> {
        match self.session {
            Some(s) => Some(s.session_id),
            None => None,
        }
    }

    /// One more keystroke can be counted.
    pub open spec fn has_keystroke_room(&self) -> bool {
        self.counts().0 < usize::MAX && self.counts().1 < usize::MAX && self.counts().2
            < usize::MAX && self.counts().3 < usize::MAX
    }

    /// Internal consistency of the engine.
    pub closed spec fn wf(&self) -> bool {
        &&& (self.session_state == SessionState::Idle) == (self.session is None)
        &&& self.session matches Some(s) ==> s.buffer.wf() && s.buffer.full_text@
            == s.mode.text_view()
        &&& (self.session_state == SessionState::Running && self.session is Some)
            ==> !self.session->0.buffer.is_complete
        &&& (self.session_state == SessionState::AwaitingPersistence || self.session_state
            == SessionState::Persisting) ==> self.completed_stats is Some
    }

    /// An idle engine.
    pub fn new() -> (e: CoreEngine)
        ensures
            e.wf(),
            e.state() == SessionState::Idle,
            !e.has_session(),
            e.session_id_spec() is None,
            e.frames().len() == 0,
            e.replay_start() is None,
            e.completed() is None,
            e.completed_time() is None,
            e.counts() == (0usize, 0usize, 0usize, 0usize),
            !e.timer_started(),
    {
        CoreEngine {
            session: None,
            session_state: SessionState::Idle,
            stats: StatisticsEngine::new(),
            replay_frames: Vec::new(),
            replay_start_timestamp_ms: None,
            completed_stats: None,
            completed_at: None,
        }
    }

    /// Whether one more keystroke can be counted without overflow.
    pub fn keystroke_room(&self) -> (b: bool)
        ensures
            b == self.has_keystroke_room(),
    {
        self.stats.tracker.can_count()
    }

    /// Starts a new test, only from an empty or a stored session; otherwise
    /// the current state is returned as the error and nothing changes.
    pub fn start_test_mode(&mut self, session_id: SessionId, mode: SessionMode) -> (r: Result<
        TestSessionInfo,
        SessionState,
    >)
        requires
            old(self).wf(),
        ensures
            final(self).wf(),
            final(self).state() == lifecycle(old(self).state(), LifecycleOp::Start).0,
            r is Ok == lifecycle(old(self).state(), LifecycleOp::Start).1,
            r matches Err(s) ==> s == old(self).state() && *final(self) == *old(self),
            r matches Ok(info) ==> {
                &&& info.session_id@ == session_id.text()
                &&& info.text@ == mode.text_view()
                &&& info.text_length == mode.text_view().len()
                &&& info.mode_type@ == crate::modes::mode_type_name(mode.kind())
                &&& info.mode_config == mode.config_view()
                &&& info.language@ == mode.language_view()
                &&& final(self).session_mode() == mode
                &&& final(self).has_session()
                &&& final(self).session_id_spec() == Some(session_id)
                &&& final(self).text() == mode.text_view()
                &&& final(self).model() == fresh_model(mode.text_view())
                &&& final(self).is_timed() == (mode is Time)
                &&& final(self).frames().len() == 0
                &&& final(self).replay_start() is None
                &&& final(self).completed() is None
                &&& final(self).completed_time() is None
                &&& final(self).counts() == (0usize, 0usize, 0usize, 0usize)
            },
    {
        if !(self.session_state == SessionState::Idle || self.session_state
            == SessionState::Persisted) {
            return Err(self.session_state);
        }
        let text = mode.get_text().to_owned();
        let chars = crate::text::chars_of(text.as_str());
        let text_length = chars.len();
        let mode_type = mode.mode_type().to_string();
        let mode_config = mode.mode_config();
        let language = mode.language().to_owned();
        let buffer = TextBuffer::new(text.as_str());
        let info = TestSessionInfo {
            session_id: session_id.to_string(),
            text,
            text_length,
            mode_type,
            mode_config,
            language,
        };
        self.session = Some(TestSession { session_id, mode, buffer });
        self.session_state = SessionState::Running;
        self.stats.reset();
        self.replay_frames = Vec::new();
        self.replay_start_timestamp_ms = None;
        self.completed_stats = None;
        self.completed_at = None;
        Ok(info)
    }

    /// Drops the session, unless its completed result is being stored or
    /// awaits a retry.
    pub fn abort(&mut self) -> (ok: bool)
        requires
            old(self).wf(),
        ensures
            final(self).wf(),
            (final(self).state(), ok) == lifecycle(old(self).state(), LifecycleOp::Abort),
            !ok ==> *final(self) == *old(self),
            ok ==> !final(self).has_session() && final(self).frames().len() == 0
                && final(self).completed() is None && final(self).completed_time() is None
                && final(self).counts() == (0usize, 0usize, 0usize, 0usize),
            ok ==> final(self).session_id_spec() is None && final(self).replay_start() is None
                && !final(self).timer_started(),
    {
        if self.session_state == SessionState::AwaitingPersistence || self.session_state
            == SessionState::Persisting {
            return false;
        }
        self.session = None;
        self.session_state = SessionState::Idle;
        self.stats.reset();
        self.replay_frames = Vec::new();
        self.replay_start_timestamp_ms = None;
        self.completed_stats = None;
        self.completed_at = None;
        true
    }

    /// Restarts a running session on the same text; refused in any other
    /// state.
    pub fn reset(&mut self) -> (ok: bool)
        requires
            old(self).wf(),
        ensures
            final(self).wf(),
            (final(self).state(), ok) == lifecycle(old(self).state(), LifecycleOp::Reset),
            !ok ==> *final(self) == *old(self),
            ok ==> final(self).has_session() && final(self).text() == old(self).text()
                && final(self).model() == fresh_model(old(self).text()) && final(self).session_id_spec() == old(
                self,
            ).session_id_spec() && final(self).frames().len() == 0 && final(self).counts() == (
                0usize,
                0usize,
                0usize,
                0usize,
            ),
    {
        if self.session_state != SessionState::Running {
            return false;
        }
        let session = self.session.take();
        match session {
            Some(s) => {
                let TestSession { session_id, mode, buffer } = s;
                let text = mode.get_text().to_owned();
                let fresh = TextBuffer::new(text.as_str());
                self.session = Some(TestSession { session_id, mode, buffer: fresh });
            },
            None => {},
        }
        self.stats.reset();
        self.replay_frames = Vec::new();
        self.replay_start_timestamp_ms = None;
        self.completed_stats = None;
        self.completed_at = None;
        true
    }

    /// Processes one key event.
    ///
    /// Without a running session nothing changes: an idle engine answers
    /// `Noop`, a completed result waiting to be stored is answered again, and
    /// a stored one answers `TestEnded`. While running, the key is
    /// classified, applied by the mode, counted, recorded as a replay frame
    /// when it changed a position, and the test completes when the mode says
    /// so; the final counts are then kept until they are stored.
    pub fn process_key(&mut self, key_event: &KeyEvent) -> (out: EngineOutput)
        requires
            old(self).wf(),
            old(self).state() == SessionState::Running ==> old(self).has_keystroke_room(),
        ensures
            final(self).wf(),
            old(self).state() != SessionState::Running ==> *final(self) == *old(self),
            (old(self).state() == SessionState::AwaitingPersistence || old(self).state()
                == SessionState::Persisting || old(self).state() == SessionState::Persisted) ==> {
                &&& out.key_result == KeyResult::TestEnded
                &&& out.session_state == old(self).state()
                &&& opt_stats_view(out.test_complete) == if old(self).state()
                    == SessionState::AwaitingPersistence {
                    old(self).completed()
                } else {
                    None
                }
            },
            old(self).state() == SessionState::Idle ==> out == noop_output_spec(
                SessionState::Idle,
            ),
            old(self).state() == SessionState::AwaitingPersistence ==> out.session_state
                == SessionState::AwaitingPersistence && out.key_result == KeyResult::TestEnded
                && out.caret_pos == 0 && out.live_stats is None && opt_stats_view(
                out.test_complete,
            ) == old(self).completed() && old(self).completed() is Some,
            old(self).state() == SessionState::Persisting ==> out == terminal_output_spec(
                SessionState::Persisting,
            ),
            old(self).state() == SessionState::Persisted ==> out == terminal_output_spec(
                SessionState::Persisted,
            ),
            old(self).state() == SessionState::Running ==> ({
                let action = classify_key(key_event.key@, key_event.code@);
                let step = key_step(old(self).model(), action, key_event.timestamp);
                let start = match old(self).replay_start() {
                    Some(t) => t,
                    None => key_event.timestamp,
                };
                let affected = if out.key_result == KeyResult::Correct || out.key_result
                    == KeyResult::Incorrect {
                    old(self).model().pos
                } else {
                    step.0.pos
                };
                &&& final(self).has_session()
                &&& final(self).text() == old(self).text()
                &&& final(self).session_id_spec() == old(self).session_id_spec()
                &&& final(self).is_timed() == old(self).is_timed()
                &&& final(self).model() == step.0
                &&& out.caret_pos == step.0.pos
                &&& out.visible_pos == (VisiblePos { row: 0, col: out.caret_pos })
                &&& (out.key_result == key_result_of(step.1) || out.key_result
                    == KeyResult::TestEnded)
                &&& !old(self).is_timed() ==> out.key_result == key_result_of(step.1)
                &&& final(self).counts() == tracked_counts(
                    old(self).counts(),
                    typing_of(out.key_result),
                )
                &&& if out.key_result != KeyResult::Noop && out.key_result
                    != KeyResult::TestEnded {
                    &&& 0 <= affected < step.0.typed.len()
                    &&& final(self).replay_start() == Some(start)
                    &&& final(self).frames() == old(self).frames().push(
                        ReplayFrame {
                            timestamp_ms: if key_event.timestamp >= start {
                                (key_event.timestamp - start) as u64
                            } else {
                                0
                            },
                            key: key_event.key,
                            caret_pos: out.caret_pos,
                            char_status: step.0.typed[affected].status,
                            expected_char: step.0.typed[affected].expected,
                            typed_char: step.0.typed[affected].typed,
                        },
                    )
                } else {
                    &&& final(self).replay_start() == old(self).replay_start()
                    &&& final(self).frames() == old(self).frames()
                }
                &&& (final(self).state() == SessionState::Running || final(self).state()
                    == SessionState::AwaitingPersistence)
                &&& !old(self).is_timed() ==> (final(self).state()
                    == SessionState::AwaitingPersistence) == step.0.complete
                &&& step.0.complete ==> final(self).state() == SessionState::AwaitingPersistence
                &&& out.session_state == final(self).state()
                &&& (out.test_complete is Some) == (final(self).state()
                    == SessionState::AwaitingPersistence)
                &&& out.test_complete matches Some(f) ==> stats_describe(f@, step.0.typed)
                    && final(self).completed() == Some(f@)
                &&& out.test_complete is None ==> final(self).completed() == old(self).completed()
                &&& final(self).completed_time() == old(self).completed_time()
                &&& out.live_stats matches Some(l) ==> out.test_complete is None
                    && l.correct_chars == final(self).counts().0 && l.incorrect_chars
                    == final(self).counts().1 && l.backspaces == final(self).counts().2
            }),
    {
        if self.session_state == SessionState::Idle {
            return noop_output(SessionState::Idle);
        }
        if self.session_state == SessionState::AwaitingPersistence {
            let again = match &self.completed_stats {
                Some(f) => Some(f.clone()),
                None => None,
            };
            return completed_output(SessionState::AwaitingPersistence, again);
        }
        if self.session_state == SessionState::Persisting {
            return terminal_output(SessionState::Persisting);
        }
        if self.session_state == SessionState::Persisted {
            return terminal_output(SessionState::Persisted);
        }
        let taken = self.session.take();
        let mut session = match taken {
            Some(s) => s,
            None => {
                self.session_state = SessionState::Idle;
                return noop_output(SessionState::Idle);
            },
        };
        let ghost m0 = session.buffer.model();
        let action = KeyClassifier::classify(key_event.key.as_str(), key_event.code.as_str());
        let previous_caret_pos = session.buffer.current_position;
        let typing_result = match action {
            KeyAction::Print(ch) => {
                let mode_result = session.mode.on_key_press(
                    ch,
                    key_event.timestamp,
                    &mut session.buffer,
                );
                match mode_result {
                    ModeResult::Complete => TypingResult::TestEnded,
                    ModeResult::Continue => {
                        if previous_caret_pos < session.buffer.typed_chars.len() {
                            let st = session.buffer.typed_chars[previous_caret_pos].status;
                            match st {
                                CharStatus::Correct => TypingResult::Correct,
                                CharStatus::Incorrect => TypingResult::Incorrect,
                                _ => TypingResult::Noop,
                            }
                        } else {
                            TypingResult::Noop
                        }
                    },
                    ModeResult::Failed(_) => TypingResult::Noop,
                }
            },
            KeyAction::Backspace => {
                let backspace_result = if previous_caret_pos < session.buffer.typed_chars.len()
                    && session.buffer.typed_chars[previous_caret_pos].status
                    == CharStatus::Incorrect {
                    TypingResult::UndoneIncorrect
                } else if previous_caret_pos > 0 {
                    let st = session.buffer.typed_chars[previous_caret_pos - 1].status;
                    match st {
                        CharStatus::Correct => TypingResult::UndoneCorrect,
                        CharStatus::Incorrect => TypingResult::UndoneIncorrect,
                        _ => TypingResult::Noop,
                    }
                } else {
                    TypingResult::Noop
                };
                let mode_result = session.mode.on_backspace(&mut session.buffer);
                match mode_result {
                    ModeResult::Complete => TypingResult::TestEnded,
                    _ => backspace_result,
                }
            },
            _ => TypingResult::Noop,
        };
        let caret_pos = session.buffer.current_position;
        let visible_pos = calc_visible_pos(caret_pos);
        let is_complete = session.mode.is_complete(&session.buffer);
        self.stats.on_key_processed(&typing_result, &session.buffer);
        let changed = match typing_result {
            TypingResult::Noop | TypingResult::TestEnded => false,
            _ => true,
        };
        if changed {
            let affected_position = match typing_result {
                TypingResult::Correct | TypingResult::Incorrect => previous_caret_pos,
                _ => caret_pos,
            };
            let start_timestamp = match self.replay_start_timestamp_ms {
                Some(t) => t,
                None => key_event.timestamp,
            };
            self.replay_start_timestamp_ms = Some(start_timestamp);
            let typed_char = session.buffer.typed_chars[affected_position];
            self.replay_frames.push(
                ReplayFrame {
                    timestamp_ms: key_event.timestamp.saturating_sub(start_timestamp),
                    key: key_event.key.clone(),
                    caret_pos,
                    char_status: typed_char.status,
                    expected_char: typed_char.expected,
                    typed_char: typed_char.typed,
                },
            );
        }
        let live_stats = if session.buffer.start_time.is_some() && !is_complete {
            Some(self.stats.live_stats(&session.buffer))
        } else {
            None
        };
        let test_complete = if is_complete {
            let duration = session.buffer.elapsed_ms();
            Some(self.stats.finalize(&session.buffer, duration))
        } else {
            None
        };
        match &test_complete {
            Some(f) => {
                self.completed_stats = Some(f.clone());
                self.session_state = SessionState::AwaitingPersistence;
            },
            None => {},
        }
        let key_result = match typing_result {
            TypingResult::Correct => KeyResult::Correct,
            TypingResult::Incorrect => KeyResult::Incorrect,
            TypingResult::UndoneCorrect => KeyResult::UndoneCorrect,
            TypingResult::UndoneIncorrect => KeyResult::UndoneIncorrect,
            TypingResult::Noop => KeyResult::Noop,
            TypingResult::TestEnded => KeyResult::TestEnded,
        };
        self.session = Some(session);
        EngineOutput {
            session_state: self.session_state,
            key_result,
            caret_pos,
            visible_pos,
            live_stats,
            test_complete,
        }
    }

    /// Claims a completed result for storing; only one caller can.
    pub fn begin_persistence(&mut self) -> (ok: bool)
        requires
            old(self).wf(),
        ensures
            final(self).wf(),
            (final(self).state(), ok) == lifecycle(
                old(self).state(),
                LifecycleOp::BeginPersistence,
            ),
            final(self).completed() == old(self).completed(),
            final(self).completed_time() == old(self).completed_time(),
            final(self).session_id_spec() == old(self).session_id_spec(),
    {
        if self.session_state != SessionState::AwaitingPersistence {
            return false;
        }
        self.session_state = SessionState::Persisting;
        true
    }

    /// Marks the result stored.
    pub fn mark_persisted(&mut self) -> (ok: bool)
        requires
            old(self).wf(),
        ensures
            final(self).wf(),
            (final(self).state(), ok) == lifecycle(old(self).state(), LifecycleOp::MarkPersisted),
            final(self).completed() == old(self).completed(),
            final(self).completed_time() == old(self).completed_time(),
            final(self).session_id_spec() == old(self).session_id_spec(),
    {
        if self.session_state != SessionState::Persisting {
            return false;
        }
        self.session_state = SessionState::Persisted;
        true
    }

    /// Makes a failed store retryable, keeping the same completed result.
    pub fn mark_persistence_failed(&mut self) -> (ok: bool)
        requires
            old(self).wf(),
        ensures
            final(self).wf(),
            (final(self).state(), ok) == lifecycle(
                old(self).state(),
                LifecycleOp::MarkPersistenceFailed,
            ),
            final(self).completed() == old(self).completed(),
            final(self).completed_time() == old(self).completed_time(),
            final(self).session_id_spec() == old(self).session_id_spec(),
    {
        if self.session_state != SessionState::Persisting {
            return false;
        }
        self.session_state = SessionState::AwaitingPersistence;
        true
    }

    /// Lifecycle state.
    pub fn session_state(&self) -> (s: SessionState)
        ensures
            s == self.state(),
    {
        self.session_state
    }

    /// Records the completion time once, while the result awaits storing.
    pub fn set_completion_timestamp(&mut self, completed_at: UtcTimestamp) -> (ok: bool)
        requires
            old(self).wf(),
        ensures
            final(self).wf(),
            ok == (old(self).state() == SessionState::AwaitingPersistence && old(
                self,
            ).completed() is Some && old(self).completed_time() is None),
            ok ==> final(self).completed_time() == Some(completed_at),
            !ok ==> final(self).completed_time() == old(self).completed_time(),
            final(self).state() == old(self).state(),
            final(self).completed() == old(self).completed(),
    {
        if self.session_state != SessionState::AwaitingPersistence || self.completed_stats.is_none()
            || self.completed_at.is_some() {
            return false;
        }
        self.completed_at = Some(completed_at);
        true
    }

    /// The recorded completion time.
    pub fn completion_timestamp(&self) -> (t: Option<UtcTimestamp>)
        ensures
            t == self.completed_time(),
    {
        self.completed_at
    }

    /// Identity of the current or retryable session.
    pub fn current_session_id(&self) -> (id: Option<&SessionId>)
        ensures
            id matches Some(i) ==> self.session_id_spec() == Some(*i),
            id is None == (self.session_id_spec() is None),
    {
        match &self.session {
            Some(s) => Some(&s.session_id),
            None => None,
        }
    }

    /// True while the result is being stored.
    pub fn is_finalizing(&self) -> (b: bool)
        ensures
            b == (self.state() == SessionState::Persisting),
    {
        self.session_state == SessionState::Persisting
    }

    /// True while keystrokes are accepted.
    pub fn is_active(&self) -> (b: bool)
        ensures
            b == (self.state() == SessionState::Running),
    {
        self.session_state == SessionState::Running
    }

    /// Text of the current test.
    pub fn current_text(&self) -> (t: Option<&str>)
        requires
            self.wf(),
        ensures
            t is Some == self.has_session(),
            t matches Some(s) ==> s@ == self.text(),
    {
        match &self.session {
            Some(s) => Some(s.mode.get_text()),
            None => None,
        }
    }

    /// Mode type of the current test.
    pub fn current_mode_type(&self) -> (t: Option<ModeType>)
        ensures
            t is Some == self.has_session(),
            t matches Some(k) ==> k == self.session_mode().kind(),
    {
        match &self.session {
            Some(s) => Some(s.mode.mode_type()),
            None => None,
        }
    }

    /// Mode configuration of the current test.
    pub fn current_mode_config(&self) -> (c: Option<ModeConfig>)
        ensures
            c is Some == self.has_session(),
            c matches Some(x) ==> x == self.session_mode().config_view(),
    {
        match &self.session {
            Some(s) => Some(s.mode.mode_config()),
            None => None,
        }
    }

    /// Language of the current test.
    pub fn current_language(&self) -> (l: Option<&str>)
        ensures
            l is Some == self.has_session(),
            l matches Some(x) ==> x@ == self.session_mode().language_view(),
    {
        match &self.session {
            Some(s) => Some(s.mode.language()),
            None => None,
        }
    }

    /// Replay frames of the current or last completed session.
    pub fn replay_frames(&self) -> (f: &[ReplayFrame])
        ensures
            f@ == self.frames(),
    {
        self.replay_frames.as_slice()
    }

    /// Final per-character counters of the current session.
    pub fn current_char_stats(&self) -> (t: Option<Vec<(char, CharStat)>>)
        ensures
            t is Some == self.has_session(),
            t matches Some(v) ==> ({
                &&& keys_distinct(v@)
                &&& forall|k: char|
                    has_key(v@, k) <==> exists|i: int|
                        0 <= i < self.model().typed.len() && (#[trigger] self.model().typed[i]).expected
                            == k
                &&& forall|j: int|
                    0 <= j < v@.len() ==> (#[trigger] v@[j]).1 == char_stat_of(
                        self.model().typed,
                        v@[j].0,
                    )
            }),
    {
        match &self.session {
            Some(s) => Some(HeatmapBuilder::build_char_stats(&s.buffer)),
            None => None,
        }
    }

    /// Status of a position of the current text.
    pub fn char_status_at(&self, pos: usize) -> (r: Option<CharStatus>)
        ensures
            !self.has_session() ==> r is None,
            self.has_session() ==> r == (if pos < self.model().typed.len() {
                Some(self.model().typed[pos as int].status)
            } else {
                None
            }),
    {
        match &self.session {
            Some(s) => s.buffer.char_status_at(pos),
            None => None,
        }
    }

    /// Caret position; 0 without a session.
    pub fn caret_position(&self) -> (p: usize)
        ensures
            !self.has_session() ==> p == 0,
            self.has_session() ==> p == self.model().pos,
    {
        match &self.session {
            Some(s) => s.buffer.current_position,
            None => 0,
        }
    }

    /// Whether the current test is over.
    pub fn is_complete(&self) -> (b: bool)
        ensures
            !self.has_session() ==> !b,
            self.has_session() && !self.is_timed() ==> b == self.model().complete,
    {
        match &self.session {
            Some(s) => s.mode.is_complete(&s.buffer),
            None => false,
        }
    }
}

} // verus!

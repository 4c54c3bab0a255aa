//! Shared value types of the typing domain: per-character state, per-key
//! counters, key outcomes and the session lifecycle.

use vstd::prelude::*;

verus! {

/// Render state of one character of the target text.
#[derive(Debug, Clone, Copy, PartialEq, Eq, Structural)]
pub enum CharStatus {
    /// Not typed yet (or an error was taken back).
    Pending,
    /// Typed correctly.
    Correct,
    /// Typed incorrectly; the caret stays on it.
    Incorrect,
    /// Was typed, then erased by a backspace.
    Backspaced,
}

/// One character of the target text with what happened at its position.
#[derive(Debug, Clone, Copy, PartialEq, Eq, Structural)]
pub struct TypedChar {
    /// The character the text expects here.
    pub expected: char,
    /// The character currently typed here, if any.
    pub typed: Option<char>,
    /// Current status for rendering and scoring.
    pub status: CharStatus,
    /// Timestamp of the keystroke currently stored here.
    pub timestamp_ms: Option<u64>,
    /// The very first character ever typed here (kept through backspaces).
    pub first_typed: Option<char>,
    /// Whether that first attempt was correct.
    pub first_correct: bool,
}

impl TypedChar {
    /// A pending position that expects `expected`.
    pub open spec fn fresh(expected: char) -> TypedChar {
        TypedChar {
            expected,
            typed: None,
            status: CharStatus::Pending,
            timestamp_ms: None,
            first_typed: None,
            first_correct: false,
        }
    }

    /// Creates a pending position that expects `expected`.
    pub fn new(expected: char) -> (t: TypedChar)
        ensures
            t == TypedChar::fresh(expected),
    {
        TypedChar {
            expected,
            typed: None,
            status: CharStatus::Pending,
            timestamp_ms: None,
            first_typed: None,
            first_correct: false,
        }
    }
}

/// Final correct/incorrect counters of one character of the text.
#[derive(Debug, Clone, Copy, PartialEq, Eq, Structural)]
pub struct CharStat {
    pub correct: usize,
    pub incorrect: usize,
    pub total: usize,
}

/// First-attempt counters of one key, used by the heatmap.
#[derive(Debug, Clone, Copy, PartialEq, Eq, Structural)]
pub struct KeyHeat {
    pub total_attempts: usize,
    pub correct: usize,
    pub incorrect: usize,
}

/// What a keystroke did, as reported to the interface.
#[derive(Debug, Clone, Copy, PartialEq, Eq, Structural)]
pub enum KeyResult {
    Correct,
    Incorrect,
    UndoneCorrect,
    UndoneIncorrect,
    Noop,
    TestEnded,
}

/// Lifecycle of a typing session.
#[derive(Debug, Clone, Copy, PartialEq, Eq, Structural)]
pub enum SessionState {
    /// No session.
    Idle,
    /// Accepting keystrokes.
    Running,
    /// Completed; the result waits to be stored (or to be retried).
    AwaitingPersistence,
    /// The result is being stored.
    Persisting,
    /// The result is stored; a new session may start.
    Persisted,
}

/// Caret position as (row, column).
#[derive(Debug, Clone, Copy, PartialEq, Eq, Structural)]
pub struct VisiblePos {
    pub row: usize,
    pub col: usize,
}

/// A UTC instant as whole seconds since the Unix epoch plus nanoseconds.
#[derive(Debug, Clone, Copy, PartialEq, Eq, Structural)]
pub struct UtcTimestamp {
    pub seconds: i64,
    pub nanos: u32,
}

/// Identity of a typing session.
#[derive(Debug, Clone, PartialEq, Eq)]
pub struct SessionId {
    value: String,
}

impl SessionId {
    /// The identifier text.
    pub closed spec fn text(&self) -> Seq<char> {
        self.value@
    }

    /// Wraps an identifier.
    pub fn from_string(value: String) -> (id: SessionId)
        ensures
            id.text() == value@,
    {
        SessionId { value }
    }

    /// The identifier text.
    pub fn as_str(&self) -> (s: &str)
        ensures
            s@ == self.text(),
    {
        self.value.as_str()
    }

    /// The identifier as an owned string.
    pub fn to_string(&self) -> (s: String)
        ensures
            s@ == self.text(),
    {
        self.value.as_str().to_owned()
    }
}

} // verus!

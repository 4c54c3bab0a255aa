//! The typing engine: the target text, the caret, and what was typed at
//! each position.

use std::time::Instant;

use vstd::prelude::*;

use crate::clock::{instant_now, millis_since};
use crate::domain::{CharStatus, TypedChar};
use crate::text::chars_of;

verus! {

/// Outcome of one keystroke in the typing engine.
#[derive(Debug, Clone, Copy, PartialEq, Eq, Structural)]
pub enum TypingResult {
    /// The character was right.
    Correct,
    /// The character was wrong.
    Incorrect,
    /// A backspace took back a correct character.
    UndoneCorrect,
    /// A backspace took back a wrong character.
    UndoneIncorrect,
    /// Nothing happened (backspace at the start, input past the end).
    Noop,
    /// The test is over; input is ignored.
    TestEnded,
}

/// The part of a buffer that keystrokes change.
pub struct TypingModel {
    pub typed: Seq<TypedChar>,
    pub pos: int,
    pub complete: bool,
}

/// A well-formed typing state: everything before the caret is correct,
/// nothing after it is, an error can only sit under the caret, and the test
/// is complete exactly when the caret has passed the last character of a
/// non-empty text.
pub open spec fn model_wf(m: TypingModel) -> bool {
    &&& 0 <= m.pos <= m.typed.len()
    &&& forall|i: int| 0 <= i < m.pos ==> (#[trigger] m.typed[i]).status == CharStatus::Correct
    &&& forall|i: int|
        m.pos <= i < m.typed.len() ==> (#[trigger] m.typed[i]).status != CharStatus::Correct
    &&& forall|i: int|
        m.pos < i < m.typed.len() ==> (#[trigger] m.typed[i]).status != CharStatus::Incorrect
    &&& m.complete == (m.pos == m.typed.len() && m.typed.len() > 0)
}

/// The position after typing `ch` at timestamp `ts` over `tc`.
pub open spec fn typed_after_print(tc: TypedChar, ch: char, ts: u64) -> TypedChar {
    TypedChar {
        expected: tc.expected,
        typed: Some(ch),
        status: if ch == tc.expected {
            CharStatus::Correct
        } else {
            CharStatus::Incorrect
        },
        timestamp_ms: Some(ts),
        first_typed: if tc.first_typed is None {
            Some(ch)
        } else {
            tc.first_typed
        },
        first_correct: if tc.first_typed is None {
            ch == tc.expected
        } else {
            tc.first_correct
        },
    }
}

/// A position with its current keystroke erased; the first attempt stays.
pub open spec fn typed_cleared(tc: TypedChar, status: CharStatus) -> TypedChar {
    TypedChar { typed: None, timestamp_ms: None, status, ..tc }
}

/// Typing `ch` at timestamp `ts`.
pub open spec fn print_step(m: TypingModel, ch: char, ts: u64) -> (TypingModel, TypingResult) {
    if m.complete {
        (m, TypingResult::TestEnded)
    } else if m.pos >= m.typed.len() {
        (m, TypingResult::Noop)
    } else {
        let tc = m.typed[m.pos];
        let typed = m.typed.update(m.pos, typed_after_print(tc, ch, ts));
        if ch == tc.expected {
            (
                TypingModel {
                    typed,
                    pos: m.pos + 1,
                    complete: m.pos + 1 >= m.typed.len(),
                },
                TypingResult::Correct,
            )
        } else {
            (TypingModel { typed, pos: m.pos, complete: m.complete }, TypingResult::Incorrect)
        }
    }
}

/// Pressing backspace: an error under the caret is taken back first;
/// otherwise the caret steps back over the last correct character.
pub open spec fn backspace_step(m: TypingModel) -> (TypingModel, TypingResult) {
    if m.complete {
        (m, TypingResult::TestEnded)
    } else if m.pos < m.typed.len() && m.typed[m.pos].status == CharStatus::Incorrect {
        (
            TypingModel {
                typed: m.typed.update(m.pos, typed_cleared(m.typed[m.pos], CharStatus::Pending)),
                ..m
            },
            TypingResult::UndoneIncorrect,
        )
    } else if m.pos == 0 {
        (m, TypingResult::Noop)
    } else {
        let prev = m.typed[m.pos - 1];
        (
            TypingModel {
                typed: m.typed.update(m.pos - 1, typed_cleared(prev, CharStatus::Backspaced)),
                pos: m.pos - 1,
                complete: m.complete,
            },
            if prev.status == CharStatus::Correct {
                TypingResult::UndoneCorrect
            } else if prev.status == CharStatus::Incorrect {
                TypingResult::UndoneIncorrect
            } else {
                TypingResult::Noop
            },
        )
    }
}

/// Number of positions of `s` whose status is `st`.
pub open spec fn count_status(s: Seq<TypedChar>, st: CharStatus) -> nat
    decreases s.len(),
{
    if s.len() == 0 {
        0
    } else {
        count_status(s.drop_last(), st) + if s.last().status == st {
            1nat
        } else {
            0nat
        }
    }
}

/// Every keystroke keeps a typing state well formed.
pub proof fn keystrokes_keep_wf(m: TypingModel, ch: char, ts: u64)
    requires
        model_wf(m),
    ensures
        model_wf(print_step(m, ch, ts).0),
        model_wf(backspace_step(m).0),
        print_step(m, ch, ts).0.typed.len() == m.typed.len(),
        backspace_step(m).0.typed.len() == m.typed.len(),
{
}

/// A wrong key never moves the caret, and a correct key moves it by one.
pub proof fn caret_moves_only_on_correct_keys(m: TypingModel, ch: char, ts: u64)
    requires
        model_wf(m),
        !m.complete,
        m.pos < m.typed.len(),
    ensures
        ch != m.typed[m.pos].expected ==> print_step(m, ch, ts).0.pos == m.pos
            && print_step(m, ch, ts).1 == TypingResult::Incorrect,
        ch == m.typed[m.pos].expected ==> print_step(m, ch, ts).0.pos == m.pos + 1
            && print_step(m, ch, ts).1 == TypingResult::Correct,
{
}

/// Backspace undoes a correct keystroke: the caret returns, the position is
/// marked erased, and the first attempt is kept.
pub proof fn backspace_undoes_correct_key(m: TypingModel, ch: char, ts: u64)
    requires
        model_wf(m),
        m.pos + 1 < m.typed.len(),
        ch == m.typed[m.pos].expected,
    ensures
        ({
            let after = print_step(m, ch, ts).0;
            let (back, r) = backspace_step(after);
            &&& r == TypingResult::UndoneCorrect
            &&& back.pos == m.pos
            &&& back.typed[m.pos].status == CharStatus::Backspaced
            &&& back.typed[m.pos].typed is None
            &&& back.typed[m.pos].first_typed == (if m.typed[m.pos].first_typed is None {
                Some(ch)
            } else {
                m.typed[m.pos].first_typed
            })
            &&& forall|i: int| 0 <= i < m.typed.len() && i != m.pos ==> back.typed[i] == m.typed[i]
        }),
{
}

/// Backspace undoes a wrong keystroke: the caret stays, the position is
/// pending again, and the wrong first attempt is remembered.
pub proof fn backspace_undoes_wrong_key(m: TypingModel, ch: char, ts: u64)
    requires
        model_wf(m),
        m.pos < m.typed.len(),
        ch != m.typed[m.pos].expected,
    ensures
        ({
            let after = print_step(m, ch, ts).0;
            let (back, r) = backspace_step(after);
            &&& r == TypingResult::UndoneIncorrect
            &&& back.pos == m.pos
            &&& back.typed[m.pos].status == CharStatus::Pending
            &&& back.typed[m.pos].first_typed == (if m.typed[m.pos].first_typed is None {
                Some(ch)
            } else {
                m.typed[m.pos].first_typed
            })
            &&& forall|i: int| 0 <= i < m.typed.len() && i != m.pos ==> back.typed[i] == m.typed[i]
        }),
{
    assert(!m.complete);
}

/// The state of a fresh buffer for `text`.
pub open spec fn fresh_model(text: Seq<char>) -> TypingModel {
    TypingModel {
        typed: text.map_values(|c: char| TypedChar::fresh(c)),
        pos: 0,
        complete: false,
    }
}

/// The state after typing every character of `keys` in order.
pub open spec fn type_all(m: TypingModel, keys: Seq<char>) -> TypingModel
    decreases keys.len(),
{
    if keys.len() == 0 {
        m
    } else {
        print_step(type_all(m, keys.drop_last()), keys.last(), 0).0
    }
}

/// Typing a non-empty text exactly, character by character, completes the
/// test with every position correct.
pub proof fn typing_the_text_completes_it(text: Seq<char>)
    requires
        text.len() > 0,
    ensures
        type_all(fresh_model(text), text).complete,
        type_all(fresh_model(text), text).pos == text.len(),
        forall|i: int|
            0 <= i < text.len() ==> (#[trigger] type_all(fresh_model(text), text).typed[i]).status
                == CharStatus::Correct,
{
    typing_a_prefix(text, text.len() as int);
    assert(text.take(text.len() as int) =~= text);
}

proof fn typing_a_prefix(text: Seq<char>, k: int)
    requires
        0 <= k <= text.len(),
    ensures
        type_all(fresh_model(text), text.take(k)).pos == k,
        type_all(fresh_model(text), text.take(k)).typed.len() == text.len(),
        type_all(fresh_model(text), text.take(k)).complete == (k == text.len() && k > 0),
        forall|i: int|
            0 <= i < text.len() ==> (#[trigger] type_all(fresh_model(text), text.take(k)).typed[i]).expected
                == text[i],
        forall|i: int|
            0 <= i < k ==> (#[trigger] type_all(fresh_model(text), text.take(k)).typed[i]).status
                == CharStatus::Correct,
    decreases k,
{
    if k > 0 {
        typing_a_prefix(text, k - 1);
        assert(text.take(k).drop_last() =~= text.take(k - 1));
        assert(text.take(k).last() == text[k - 1]);
    }
}

/// Target text and typing state.
#[derive(Debug, Clone)]
pub struct TextBuffer {
    /// The full target text.
    pub full_text: String,
    /// One entry per character of the text.
    pub typed_chars: Vec<TypedChar>,
    /// Index of the character expected next.
    pub current_position: usize,
    /// When the first key was pressed.
    pub start_time: Option<Instant>,
    /// Whether the whole text has been typed.
    pub is_complete: bool,
}

impl TextBuffer {
    /// The keystroke-relevant part of the buffer.
    pub open spec fn model(&self) -> TypingModel {
        TypingModel {
            typed: self.typed_chars@,
            pos: self.current_position as int,
            complete: self.is_complete,
        }
    }

    /// Well-formedness: the entries follow the text and the typing state is
    /// well formed.
    pub open spec fn wf(&self) -> bool {
        &&& self.typed_chars@.len() == self.full_text@.len()
        &&& forall|i: int|
            0 <= i < self.typed_chars@.len() ==> (#[trigger] self.typed_chars@[i]).expected
                == self.full_text@[i]
        &&& model_wf(self.model())
    }

    /// A fresh buffer for `text`: every position pending, caret at the start.
    pub fn new(text: &str) -> (b: TextBuffer)
        ensures
            b.wf(),
            b.full_text@ == text@,
            b.current_position == 0,
            !b.is_complete,
            b.start_time is None,
            b.typed_chars@ == text@.map_values(|c: char| TypedChar::fresh(c)),
    {
        let chars = chars_of(text);
        let mut typed_chars: Vec<TypedChar> = Vec::new();
        let mut i: usize = 0;
        while i < chars.len()
            invariant
                i <= chars.len(),
                chars@ == text@,
                typed_chars@ == chars@.take(i as int).map_values(|c: char| TypedChar::fresh(c)),
            decreases chars.len() - i,
        {
            typed_chars.push(TypedChar::new(chars[i]));
            i = i + 1;
            assert(chars@.take(i as int).drop_last() =~= chars@.take(i - 1));
        }
        assert(chars@.take(chars@.len() as int) =~= chars@);
        TextBuffer {
            full_text: text.to_owned(),
            typed_chars,
            current_position: 0,
            start_time: None,
            is_complete: false,
        }
    }

    /// Handles a printable character: a right one advances the caret, a
    /// wrong one is marked under the caret. The first attempt at each
    /// position is kept for the heatmap. The timer starts on the first key.
    pub fn process_print(&mut self, ch: char, timestamp: u64) -> (r: TypingResult)
        requires
            old(self).wf(),
        ensures
            final(self).wf(),
            final(self).full_text == old(self).full_text,
            (final(self).model(), r) == print_step(old(self).model(), ch, timestamp),
            old(self).start_time is Some ==> final(self).start_time == old(self).start_time,
            (!old(self).is_complete && old(self).current_position < old(self).typed_chars@.len())
                ==> final(self).start_time is Some,
    {
        if self.is_complete {
            return TypingResult::TestEnded;
        }
        if self.current_position >= self.typed_chars.len() {
            return TypingResult::Noop;
        }
        if self.start_time.is_none() {
            self.start_time = Some(instant_now());
        }
        let pos = self.current_position;
        let tc = self.typed_chars[pos];
        let expected = tc.expected;
        let first_typed = if tc.first_typed.is_none() {
            Some(ch)
        } else {
            tc.first_typed
        };
        let first_correct = if tc.first_typed.is_none() {
            ch == expected
        } else {
            tc.first_correct
        };
        let status = if ch == expected {
            CharStatus::Correct
        } else {
            CharStatus::Incorrect
        };
        let updated = TypedChar {
            expected,
            typed: Some(ch),
            status,
            timestamp_ms: Some(timestamp),
            first_typed,
            first_correct,
        };
        self.typed_chars.set(pos, updated);
        if ch == expected {
            self.current_position = pos + 1;
            if self.current_position >= self.typed_chars.len() {
                self.is_complete = true;
            }
            TypingResult::Correct
        } else {
            TypingResult::Incorrect
        }
    }

    /// Handles backspace: clears an error under the caret (keeping the
    /// first attempt), otherwise steps the caret back over the previous
    /// character and marks it erased.
    pub fn process_backspace(&mut self) -> (r: TypingResult)
        requires
            old(self).wf(),
        ensures
            final(self).wf(),
            final(self).full_text == old(self).full_text,
            final(self).start_time == old(self).start_time,
            (final(self).model(), r) == backspace_step(old(self).model()),
    {
        if self.is_complete {
            return TypingResult::TestEnded;
        }
        let pos = self.current_position;
        if pos < self.typed_chars.len() {
            let tc = self.typed_chars[pos];
            if tc.status == CharStatus::Incorrect {
                let cleared = TypedChar {
                    typed: None,
                    timestamp_ms: None,
                    status: CharStatus::Pending,
                    ..tc
                };
                self.typed_chars.set(pos, cleared);
                return TypingResult::UndoneIncorrect;
            }
        }
        if pos == 0 {
            return TypingResult::Noop;
        }
        let prev = self.typed_chars[pos - 1];
        let was_correct = prev.status == CharStatus::Correct;
        let was_incorrect = prev.status == CharStatus::Incorrect;
        let cleared = TypedChar {
            typed: None,
            timestamp_ms: None,
            status: CharStatus::Backspaced,
            ..prev
        };
        self.typed_chars.set(pos - 1, cleared);
        self.current_position = pos - 1;
        if was_correct {
            TypingResult::UndoneCorrect
        } else if was_incorrect {
            TypingResult::UndoneIncorrect
        } else {
            TypingResult::Noop
        }
    }

    /// The character expected next, if the text is not finished.
    pub fn current_expected(&self) -> (r: Option<char>)
        requires
            self.wf(),
        ensures
            r == (if self.current_position < self.typed_chars@.len() {
                Some(self.typed_chars@[self.current_position as int].expected)
            } else {
                None
            }),
    {
        if self.current_position < self.typed_chars.len() {
            Some(self.typed_chars[self.current_position].expected)
        } else {
            None
        }
    }

    /// Milliseconds since the first key; 0 before it.
    pub fn elapsed_ms(&self) -> (ms: u64)
        ensures
            self.start_time is None ==> ms == 0,
    {
        match &self.start_time {
            Some(t) => millis_since(t),
            None => 0,
        }
    }

    fn count(&self, st: CharStatus) -> (n: usize)
        ensures
            n == count_status(self.typed_chars@, st),
    {
        let mut n: usize = 0;
        let mut i: usize = 0;
        while i < self.typed_chars.len()
            invariant
                i <= self.typed_chars@.len(),
                n == count_status(self.typed_chars@.take(i as int), st),
                n <= i,
            decreases self.typed_chars@.len() - i,
        {
            assert(self.typed_chars@.take(i + 1).drop_last() =~= self.typed_chars@.take(i as int));
            if self.typed_chars[i].status == st {
                n = n + 1;
            }
            i = i + 1;
        }
        assert(self.typed_chars@.take(i as int) =~= self.typed_chars@);
        n
    }

    /// Number of positions currently correct.
    pub fn correct_chars(&self) -> (n: usize)
        ensures
            n == count_status(self.typed_chars@, CharStatus::Correct),
    {
        self.count(CharStatus::Correct)
    }

    /// Number of positions currently wrong.
    pub fn incorrect_chars(&self) -> (n: usize)
        ensures
            n == count_status(self.typed_chars@, CharStatus::Incorrect),
    {
        self.count(CharStatus::Incorrect)
    }

    /// Number of positions erased by backspace.
    pub fn backspace_count(&self) -> (n: usize)
        ensures
            n == count_status(self.typed_chars@, CharStatus::Backspaced),
    {
        self.count(CharStatus::Backspaced)
    }

    /// Status at `pos`, if it is a position of the text.
    pub fn char_status_at(&self, pos: usize) -> (r: Option<CharStatus>)
        ensures
            r == (if pos < self.typed_chars@.len() {
                Some(self.typed_chars@[pos as int].status)
            } else {
                None
            }),
    {
        if pos < self.typed_chars.len() {
            Some(self.typed_chars[pos].status)
        } else {
            None
        }
    }

    /// Character currently typed at `pos`, if any.
    pub fn typed_at(&self, pos: usize) -> (r: Option<char>)
        ensures
            r == (if pos < self.typed_chars@.len() {
                self.typed_chars@[pos as int].typed
            } else {
                None
            }),
    {
        if pos < self.typed_chars.len() {
            self.typed_chars[pos].typed
        } else {
            None
        }
    }
}

} // verus!

//! Guided lessons: the lesson mode and a lesson session with next-key hints.

use vstd::prelude::*;

use crate::finger_map::{finger_for, finger_for_char, is_home_row, Finger, is_jcuken_home, is_qwerty_home, lower_or};
use crate::modes::{fixed_text_result, ModeConfig, ModeResult, ModeType, TestMode};
use crate::text::{chars_of, string_from_chars};
use crate::typing::{backspace_step, print_step, TextBuffer, TypingResult};

verus! {

/// Progress of a lesson.
#[derive(Debug, Clone, Copy, PartialEq, Eq, Structural)]
pub enum LessonState {
    NotStarted,
    InProgress,
    Completed,
}

/// Lesson mode: a fixed lesson text, complete on its last character.
pub struct LessonMode {
    lesson_id: String,
    module_id: String,
    language: String,
    text: String,
}

impl LessonMode {
    /// The `lesson_id` of this mode.
    pub closed spec fn lesson_id_spec(&self) -> String {
        self.lesson_id
    }

    /// The `module_id` of this mode.
    pub closed spec fn module_id_spec(&self) -> String {
        self.module_id
    }

    /// The `language` of this mode.
    pub closed spec fn language_spec(&self) -> String {
        self.language
    }

    /// The `text` of this mode.
    pub closed spec fn text_spec(&self) -> String {
        self.text
    }
}

impl LessonMode {
    /// A lesson mode for one lesson text.
    pub fn new(lesson_id: String, module_id: String, language: String, text: String) -> (m:
        LessonMode)
        ensures
            m.lesson_id_spec()@ == lesson_id@,
            m.module_id_spec()@ == module_id@,
            m.language_spec()@ == language@,
            m.text_spec()@ == text@,
    {
        LessonMode { lesson_id, module_id, language, text }
    }

    /// Identifier of the lesson.
    pub fn lesson_id(&self) -> (s: &str)
        ensures
            s@ == self.lesson_id_spec()@,
    {
        self.lesson_id.as_str()
    }

    /// Identifier of the module the lesson belongs to.
    pub fn module_id(&self) -> (s: &str)
        ensures
            s@ == self.module_id_spec()@,
    {
        self.module_id.as_str()
    }
}

impl TestMode for LessonMode {
    open spec fn text_view(&self) -> Seq<char> {
        self.text_spec()@
    }

    fn mode_type(&self) -> (t: ModeType)
        ensures
            t == ModeType::Custom,
    {
        ModeType::Custom
    }

    fn mode_config(&self) -> (c: ModeConfig)
        ensures
            c == (ModeConfig::Lesson { lesson_id: self.lesson_id_spec(), module_id: self.module_id_spec() }),
    {
        ModeConfig::Lesson { lesson_id: self.lesson_id.clone(), module_id: self.module_id.clone() }
    }

    fn on_key_press(&mut self, ch: char, timestamp: u64, buf: &mut TextBuffer) -> (r: ModeResult)
        ensures
            r == fixed_text_result(print_step(old(buf).model(), ch, timestamp).1),
    {
        let result = buf.process_print(ch, timestamp);
        match result {
            TypingResult::TestEnded => ModeResult::Complete,
            _ => ModeResult::Continue,
        }
    }

    fn on_backspace(&mut self, buf: &mut TextBuffer) -> (r: ModeResult)
        ensures
            r == ModeResult::Continue,
    {
        let _ = buf.process_backspace();
        ModeResult::Continue
    }

    fn is_complete(&self, buf: &TextBuffer) -> (b: bool)
        ensures
            b == buf.is_complete,
    {
        buf.is_complete
    }

    fn get_text(&self) -> (s: &str) {
        self.text.as_str()
    }

    fn language(&self) -> (s: &str)
        ensures
            s@ == self.language_spec()@,
    {
        self.language.as_str()
    }
}

/// The key a learner must press next, with the finger to use.
#[derive(Debug, Clone)]
pub struct NextKeyInfo {
    pub ch: char,
    pub finger: Finger,
    pub key_label: String,
    pub is_home_row: bool,
}

/// Advice on whether to repeat a lesson.
#[derive(Debug, Clone)]
pub struct RepeatRecommendation {
    pub should_repeat: bool,
    pub reason: String,
    pub critical_weak_keys: Vec<String>,
}

/// A running lesson.
pub struct LessonSession {
    pub lesson_id: String,
    pub module_id: String,
    pub language: String,
    pub text: String,
    pub buffer: TextBuffer,
    pub state: LessonState,
}

/// Whether a language code selects the Russian layout (it starts with `r`).
pub open spec fn is_russian_code(language: Seq<char>) -> bool {
    language.len() > 0 && language[0] == 'r'
}

impl LessonSession {
    /// Well-formedness: the buffer types the lesson text, and the lesson is
    /// completed exactly when the buffer is.
    pub open spec fn wf(&self) -> bool {
        &&& self.buffer.wf()
        &&& self.buffer.full_text@ == self.text@
        &&& self.state != LessonState::NotStarted
        &&& (self.state == LessonState::Completed) == self.buffer.is_complete
    }

    /// Starts a lesson over `text`.
    pub fn start(lesson_id: String, module_id: String, language: String, text: String) -> (s:
        LessonSession)
        ensures
            s.wf(),
            s.lesson_id == lesson_id,
            s.module_id == module_id,
            s.language == language,
            s.text == text,
            s.state == LessonState::InProgress,
            s.buffer.current_position == 0,
    {
        let buffer = TextBuffer::new(text.as_str());
        LessonSession { lesson_id, module_id, language, text, buffer, state: LessonState::InProgress }
    }

    /// Types one character; a completed lesson ignores input.
    pub fn process_key(&mut self, ch: char, timestamp: u64) -> (r: TypingResult)
        requires
            old(self).wf(),
        ensures
            final(self).wf(),
            final(self).text == old(self).text,
            old(self).state != LessonState::InProgress ==> r == TypingResult::TestEnded
                && final(self).buffer.model() == old(self).buffer.model(),
            old(self).state == LessonState::InProgress ==> (final(self).buffer.model(), r)
                == print_step(old(self).buffer.model(), ch, timestamp),
    {
        if self.state != LessonState::InProgress {
            return TypingResult::TestEnded;
        }
        let result = self.buffer.process_print(ch, timestamp);
        if self.buffer.is_complete {
            self.state = LessonState::Completed;
        }
        result
    }

    /// Handles a backspace.
    pub fn process_backspace(&mut self) -> (r: TypingResult)
        requires
            old(self).wf(),
        ensures
            final(self).wf(),
            final(self).text == old(self).text,
            final(self).state == old(self).state,
            (final(self).buffer.model(), r) == backspace_step(old(self).buffer.model()),
    {
        self.buffer.process_backspace()
    }

    /// Caret position in the lesson text.
    pub fn caret_position(&self) -> (p: usize)
        ensures
            p == self.buffer.current_position,
    {
        self.buffer.current_position
    }

    /// Whether the lesson is completed.
    pub fn is_complete(&self) -> (b: bool)
        ensures
            b == (self.state == LessonState::Completed),
    {
        self.state == LessonState::Completed
    }

    /// The next character to type with its finger and home-row flag, while
    /// the lesson is in progress and the caret is on the text.
    pub fn next_required_key(&self) -> (r: Option<NextKeyInfo>)
        requires
            self.wf(),
        ensures
            (self.state != LessonState::InProgress || self.buffer.current_position
                >= self.text@.len()) ==> r is None,
            (self.state == LessonState::InProgress && self.buffer.current_position
                < self.text@.len()) ==> r is Some && ({
                let info = r->0;
                let ch = self.text@[self.buffer.current_position as int];
                let ru = is_russian_code(self.language@);
                &&& info.ch == ch
                &&& info.finger == finger_for(ch, ru)
                &&& info.key_label@ == seq![ch]
                &&& info.is_home_row == (if ru {
                    is_jcuken_home(lower_or(ch, ch))
                } else {
                    is_qwerty_home(lower_or(ch, ch))
                })
            }),
    {
        if self.state != LessonState::InProgress {
            return None;
        }
        let pos = self.buffer.current_position;
        let chars = chars_of(self.text.as_str());
        if pos >= chars.len() {
            return None;
        }
        let ch = chars[pos];
        let lang = chars_of(self.language.as_str());
        let is_ru = lang.len() > 0 && lang[0] == 'r';
        let finger = finger_for_char(ch, is_ru);
        let is_home = is_home_row(ch, is_ru);
        let label = vec![ch];
        Some(NextKeyInfo {
            ch,
            finger,
            key_label: string_from_chars(label.as_slice()),
            is_home_row: is_home,
        })
    }
}

} // verus!

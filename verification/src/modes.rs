//! Test modes: the contract every mode keeps, and the time, words and
//! quote modes.

use vstd::prelude::*;

use crate::lesson::LessonMode;
use crate::typing::{backspace_step, print_step, TextBuffer, TypingResult};

verus! {

/// Kind of test.
#[derive(Debug, Clone, Copy, PartialEq, Eq, Structural)]
pub enum ModeType {
    Time,
    Words,
    Quote,
    Custom,
}

/// Lower-case name of a mode type.
pub open spec fn mode_type_name(t: ModeType) -> Seq<char> {
    match t {
        ModeType::Time => "time"@,
        ModeType::Words => "words"@,
        ModeType::Quote => "quote"@,
        ModeType::Custom => "custom"@,
    }
}

impl ModeType {
    /// Lower-case name, as shown to users and stored with results.
    pub fn as_str(&self) -> (s: &'static str)
        ensures
            s@ == mode_type_name(*self),
    {
        match self {
            ModeType::Time => "time",
            ModeType::Words => "words",
            ModeType::Quote => "quote",
            ModeType::Custom => "custom",
        }
    }

    /// Lower-case name as an owned string.
    pub fn to_string(&self) -> (s: String)
        ensures
            s@ == mode_type_name(*self),
    {
        self.as_str().to_owned()
    }
}

/// What a mode says after a keystroke.
#[derive(Debug, Clone, PartialEq)]
pub enum ModeResult {
    /// Keep going.
    Continue,
    /// The test is over.
    Complete,
    /// The mode failed.
    Failed(String),
}

/// Configuration of a mode, as stored with a test result.
#[derive(Debug, Clone, PartialEq)]
pub enum ModeConfig {
    Time { duration: u64, language: String },
    Words { word_count: usize, language: String },
    Quote { quote_id: Option<i64>, language: String },
    Lesson { lesson_id: String, module_id: String },
}

/// The result a fixed-text mode gives for a keystroke outcome.
pub open spec fn fixed_text_result(r: TypingResult) -> ModeResult {
    if r == TypingResult::TestEnded {
        ModeResult::Complete
    } else {
        ModeResult::Continue
    }
}

/// Contract of a test mode. A mode drives the typing buffer exactly as the
/// typing engine defines and only decides when the test is over.
pub trait TestMode {
    /// The target text.
    spec fn text_view(&self) -> Seq<char>;

    /// Kind of mode.
    fn mode_type(&self) -> ModeType;

    /// Configuration to store with the result.
    fn mode_config(&self) -> ModeConfig;

    /// Handles a printable character.
    fn on_key_press(&mut self, ch: char, timestamp: u64, buf: &mut TextBuffer) -> (r: ModeResult)
        requires
            old(buf).wf(),
        ensures
            final(buf).wf(),
            final(buf).full_text == old(buf).full_text,
            final(buf).model() == print_step(old(buf).model(), ch, timestamp).0,
            final(self).text_view() == old(self).text_view(),
            print_step(old(buf).model(), ch, timestamp).1 == TypingResult::TestEnded ==> r
                == ModeResult::Complete,
            r == ModeResult::Complete || r == ModeResult::Continue,
    ;

    /// Handles a backspace.
    fn on_backspace(&mut self, buf: &mut TextBuffer) -> (r: ModeResult)
        requires
            old(buf).wf(),
        ensures
            final(buf).wf(),
            final(buf).full_text == old(buf).full_text,
            final(buf).start_time == old(buf).start_time,
            final(buf).model() == backspace_step(old(buf).model()).0,
            final(self).text_view() == old(self).text_view(),
            r == ModeResult::Complete || r == ModeResult::Continue,
    ;

    /// Whether the test is over; a fully typed text always is.
    fn is_complete(&self, buf: &TextBuffer) -> (b: bool)
        ensures
            buf.is_complete ==> b,
    ;

    /// The target text.
    fn get_text(&self) -> (s: &str)
        ensures
            s@ == self.text_view(),
    ;

    /// Language of the text.
    fn language(&self) -> &str;
}

/// Time mode: type for a fixed number of seconds (or until the text ends).
pub struct TimeMode {
    text: String,
    language: String,
    duration_secs: u64,
    start_ms: Option<u64>,
}

impl TimeMode {
    #[verifier::type_invariant]
    spec fn duration_fits(&self) -> bool {
        self.duration_secs <= u64::MAX / 1000
    }

    /// The target text.
    pub closed spec fn text_spec(&self) -> Seq<char> {
        self.text@
    }

    /// Configured length in seconds.
    pub closed spec fn duration_spec(&self) -> u64 {
        self.duration_secs
    }

    /// Language of the text.
    pub closed spec fn language_spec(&self) -> String {
        self.language
    }

    /// Whether the mode's timer has been armed.
    pub closed spec fn timer_armed(&self) -> bool {
        self.start_ms is Some
    }

    /// A time mode over `text` lasting `duration_secs` seconds.
    pub fn new(text: String, language: String, duration_secs: u64) -> (m: TimeMode)
        requires
            duration_secs <= u64::MAX / 1000,
        ensures
            m.text_spec() == text@,
            m.duration_spec() == duration_secs,
            m.language_spec() == language,
            !m.timer_armed(),
    {
        TimeMode { text, language, duration_secs, start_ms: None }
    }

    /// Whether the time is up after `elapsed_ms` milliseconds of typing:
    /// the timer is armed and the elapsed time has reached the duration.
    pub open spec fn expired_at(&self, elapsed_ms: u64) -> bool {
        self.timer_armed() && elapsed_ms >= self.duration_spec() * 1000
    }

    /// Whether the test is over after `elapsed_ms` milliseconds with `buf`
    /// in its current state.
    pub open spec fn complete_at(&self, buf: &TextBuffer, elapsed_ms: u64) -> bool {
        self.expired_at(elapsed_ms) || buf.is_complete
    }

    /// What a key press answers when the keystroke gave `typed` and the
    /// clock reads `elapsed_ms`.
    pub open spec fn key_press_result(&self, typed: TypingResult, elapsed_ms: u64) -> ModeResult {
        if self.expired_at(elapsed_ms) {
            ModeResult::Complete
        } else {
            fixed_text_result(typed)
        }
    }

    /// What a backspace answers when the clock reads `elapsed_ms`.
    pub open spec fn backspace_result(&self, elapsed_ms: u64) -> ModeResult {
        if self.expired_at(elapsed_ms) {
            ModeResult::Complete
        } else {
            ModeResult::Continue
        }
    }

    /// Whether the time is up after `elapsed_ms` milliseconds.
    pub fn expired_after(&self, elapsed_ms: u64) -> (b: bool)
        ensures
            b == self.expired_at(elapsed_ms),
    {
        proof {
            use_type_invariant(self);
        }
        if self.start_ms.is_none() {
            return false;
        }
        elapsed_ms >= self.duration_secs * 1000
    }

    /// Whether the test is over after `elapsed_ms` milliseconds: the time
    /// is up or the whole text has been typed.
    pub fn is_complete_at(&self, buf: &TextBuffer, elapsed_ms: u64) -> (b: bool)
        ensures
            b == self.complete_at(buf, elapsed_ms),
    {
        self.expired_after(elapsed_ms) || buf.is_complete
    }
}

impl TestMode for TimeMode {
    open spec fn text_view(&self) -> Seq<char> {
        self.text_spec()
    }

    fn mode_type(&self) -> (t: ModeType)
        ensures
            t == ModeType::Time,
    {
        ModeType::Time
    }

    fn mode_config(&self) -> (c: ModeConfig)
        ensures
            c == (ModeConfig::Time { duration: self.duration_spec(), language: self.language_spec() }),
    {
        ModeConfig::Time { duration: self.duration_secs, language: self.language.clone() }
    }

    fn on_key_press(&mut self, ch: char, timestamp: u64, buf: &mut TextBuffer) -> (r: ModeResult)
        ensures
            final(self).text_spec() == old(self).text_spec(),
            final(self).duration_spec() == old(self).duration_spec(),
            final(self).language_spec() == old(self).language_spec(),
            final(self).timer_armed() == (old(self).timer_armed() || old(buf).start_time is Some),
            exists|elapsed_ms: u64|
                r == #[trigger] final(self).key_press_result(
                    print_step(old(buf).model(), ch, timestamp).1,
                    elapsed_ms,
                ) && (final(buf).start_time is None ==> elapsed_ms == 0),
    {
        proof {
            use_type_invariant(&*self);
        }
        if self.start_ms.is_none() {
            if let Some(start) = &buf.start_time {
                self.start_ms = Some(crate::clock::millis_since(start));
            }
        }
        let result = buf.process_print(ch, timestamp);
        let elapsed = buf.elapsed_ms();
        let r = if self.expired_after(elapsed) {
            ModeResult::Complete
        } else {
            match result {
                TypingResult::TestEnded => ModeResult::Complete,
                _ => ModeResult::Continue,
            }
        };
        assert(r == self.key_press_result(result, elapsed));
        r
    }

    fn on_backspace(&mut self, buf: &mut TextBuffer) -> (r: ModeResult)
        ensures
            *final(self) == *old(self),
            exists|elapsed_ms: u64|
                r == #[trigger] old(self).backspace_result(elapsed_ms) && (final(buf).start_time is None
                    ==> elapsed_ms == 0),
    {
        let _ = buf.process_backspace();
        let elapsed = buf.elapsed_ms();
        let r = if self.expired_after(elapsed) {
            ModeResult::Complete
        } else {
            ModeResult::Continue
        };
        assert(r == self.backspace_result(elapsed));
        r
    }

    fn is_complete(&self, buf: &TextBuffer) -> (b: bool)
        ensures
            exists|elapsed_ms: u64|
                b == #[trigger] self.complete_at(buf, elapsed_ms) && (buf.start_time is None
                    ==> elapsed_ms == 0),
    {
        let elapsed = buf.elapsed_ms();
        let b = self.is_complete_at(buf, elapsed);
        assert(b == self.complete_at(buf, elapsed));
        b
    }

    fn get_text(&self) -> (s: &str) {
        self.text.as_str()
    }

    fn language(&self) -> (s: &str)
        ensures
            s@ == self.language_spec()@,
    {
        self.language.as_str()
    }
}

/// Words mode: type a fixed number of words.
pub struct WordsMode {
    text: String,
    language: String,
    word_count: usize,
}

impl WordsMode {
    /// The `text` of this mode.
    pub closed spec fn text_spec(&self) -> String {
        self.text
    }

    /// The `language` of this mode.
    pub closed spec fn language_spec(&self) -> String {
        self.language
    }

    /// The `word_count` of this mode.
    pub closed spec fn word_count_spec(&self) -> usize {
        self.word_count
    }
}

impl WordsMode {
    /// A words mode over `text` made of `word_count` words.
    pub fn new(text: String, language: String, word_count: usize) -> (m: WordsMode)
        ensures
            m.text_spec()@ == text@,
            m.language_spec()@ == language@,
            m.word_count_spec() == word_count,
    {
        WordsMode { text, language, word_count }
    }
}

impl TestMode for WordsMode {
    open spec fn text_view(&self) -> Seq<char> {
        self.text_spec()@
    }

    fn mode_type(&self) -> (t: ModeType)
        ensures
            t == ModeType::Words,
    {
        ModeType::Words
    }

    fn mode_config(&self) -> (c: ModeConfig)
        ensures
            c == (ModeConfig::Words { word_count: self.word_count_spec(), language: self.language_spec() }),
    {
        ModeConfig::Words { word_count: self.word_count, language: self.language.clone() }
    }

    fn on_key_press(&mut self, ch: char, timestamp: u64, buf: &mut TextBuffer) -> (r: ModeResult)
        ensures
            r == fixed_text_result(print_step(old(buf).model(), ch, timestamp).1),
    {
        let result = buf.process_print(ch, timestamp);
        match result {
            TypingResult::TestEnded => ModeResult::Complete,
            _ => ModeResult::Continue,
        }
    }

    fn on_backspace(&mut self, buf: &mut TextBuffer) -> (r: ModeResult)
        ensures
            r == ModeResult::Continue,
    {
        let _ = buf.process_backspace();
        ModeResult::Continue
    }

    fn is_complete(&self, buf: &TextBuffer) -> (b: bool)
        ensures
            b == buf.is_complete,
    {
        buf.is_complete
    }

    fn get_text(&self) -> (s: &str) {
        self.text.as_str()
    }

    fn language(&self) -> (s: &str)
        ensures
            s@ == self.language_spec()@,
    {
        self.language.as_str()
    }
}

/// Quote mode: type one quote.
pub struct QuoteMode {
    text: String,
    language: String,
    quote_id: Option<i64>,
}

impl QuoteMode {
    /// The `text` of this mode.
    pub closed spec fn text_spec(&self) -> String {
        self.text
    }

    /// The `language` of this mode.
    pub closed spec fn language_spec(&self) -> String {
        self.language
    }

    /// The `quote_id` of this mode.
    pub closed spec fn quote_id_spec(&self) -> Option<i64> {
        self.quote_id
    }
}

impl QuoteMode {
    /// A quote mode over `text`.
    pub fn new(text: String, language: String, quote_id: Option<i64>) -> (m: QuoteMode)
        ensures
            m.text_spec()@ == text@,
            m.language_spec()@ == language@,
            m.quote_id_spec() == quote_id,
    {
        QuoteMode { text, language, quote_id }
    }
}

impl TestMode for QuoteMode {
    open spec fn text_view(&self) -> Seq<char> {
        self.text_spec()@
    }

    fn mode_type(&self) -> (t: ModeType)
        ensures
            t == ModeType::Quote,
    {
        ModeType::Quote
    }

    fn mode_config(&self) -> (c: ModeConfig)
        ensures
            c == (ModeConfig::Quote { quote_id: self.quote_id_spec(), language: self.language_spec() }),
    {
        ModeConfig::Quote { quote_id: self.quote_id, language: self.language.clone() }
    }

    fn on_key_press(&mut self, ch: char, timestamp: u64, buf: &mut TextBuffer) -> (r: ModeResult)
        ensures
            r == fixed_text_result(print_step(old(buf).model(), ch, timestamp).1),
    {
        let result = buf.process_print(ch, timestamp);
        match result {
            TypingResult::TestEnded => ModeResult::Complete,
            _ => ModeResult::Continue,
        }
    }

    fn on_backspace(&mut self, buf: &mut TextBuffer) -> (r: ModeResult)
        ensures
            r == ModeResult::Continue,
    {
        let _ = buf.process_backspace();
        ModeResult::Continue
    }

    fn is_complete(&self, buf: &TextBuffer) -> (b: bool)
        ensures
            b == buf.is_complete,
    {
        buf.is_complete
    }

    fn get_text(&self) -> (s: &str) {
        self.text.as_str()
    }

    fn language(&self) -> (s: &str)
        ensures
            s@ == self.language_spec()@,
    {
        self.language.as_str()
    }
}

/// The mode of a running session: one of the concrete modes.
pub enum SessionMode {
    Time(TimeMode),
    Words(WordsMode),
    Quote(QuoteMode),
    Lesson(LessonMode),
}

impl SessionMode {
    /// The kind of the inner mode (a lesson counts as custom).
    pub open spec fn kind(&self) -> ModeType {
        match self {
            SessionMode::Time(_) => ModeType::Time,
            SessionMode::Words(_) => ModeType::Words,
            SessionMode::Quote(_) => ModeType::Quote,
            SessionMode::Lesson(_) => ModeType::Custom,
        }
    }

    /// The configuration of the inner mode.
    pub open spec fn config_view(&self) -> ModeConfig {
        match self {
            SessionMode::Time(m) => ModeConfig::Time {
                duration: m.duration_spec(),
                language: m.language_spec(),
            },
            SessionMode::Words(m) => ModeConfig::Words {
                word_count: m.word_count_spec(),
                language: m.language_spec(),
            },
            SessionMode::Quote(m) => ModeConfig::Quote {
                quote_id: m.quote_id_spec(),
                language: m.language_spec(),
            },
            SessionMode::Lesson(m) => ModeConfig::Lesson {
                lesson_id: m.lesson_id_spec(),
                module_id: m.module_id_spec(),
            },
        }
    }

    /// The language of the inner mode.
    pub open spec fn language_view(&self) -> Seq<char> {
        match self {
            SessionMode::Time(m) => m.language_spec()@,
            SessionMode::Words(m) => m.language_spec()@,
            SessionMode::Quote(m) => m.language_spec()@,
            SessionMode::Lesson(m) => m.language_spec()@,
        }
    }
}

impl TestMode for SessionMode {
    open spec fn text_view(&self) -> Seq<char> {
        match self {
            SessionMode::Time(m) => m.text_view(),
            SessionMode::Words(m) => m.text_view(),
            SessionMode::Quote(m) => m.text_view(),
            SessionMode::Lesson(m) => m.text_view(),
        }
    }

    fn mode_type(&self) -> (t: ModeType)
        ensures
            t == self.kind(),
    {
        match self {
            SessionMode::Time(m) => m.mode_type(),
            SessionMode::Words(m) => m.mode_type(),
            SessionMode::Quote(m) => m.mode_type(),
            SessionMode::Lesson(m) => m.mode_type(),
        }
    }

    fn mode_config(&self) -> (c: ModeConfig)
        ensures
            c == self.config_view(),
    {
        match self {
            SessionMode::Time(m) => m.mode_config(),
            SessionMode::Words(m) => m.mode_config(),
            SessionMode::Quote(m) => m.mode_config(),
            SessionMode::Lesson(m) => m.mode_config(),
        }
    }

    fn on_key_press(&mut self, ch: char, timestamp: u64, buf: &mut TextBuffer) -> (r: ModeResult)
        ensures
            ((*final(self)) is Time) == ((*old(self)) is Time),
            !((*old(self)) is Time) ==> r == fixed_text_result(
                print_step(old(buf).model(), ch, timestamp).1,
            ),
            (*old(self)) is Time ==> exists|elapsed_ms: u64|
                r == #[trigger] (*final(self))->Time_0.key_press_result(
                    print_step(old(buf).model(), ch, timestamp).1,
                    elapsed_ms,
                ) && (final(buf).start_time is None ==> elapsed_ms == 0),
    {
        match self {
            SessionMode::Time(m) => m.on_key_press(ch, timestamp, buf),
            SessionMode::Words(m) => m.on_key_press(ch, timestamp, buf),
            SessionMode::Quote(m) => m.on_key_press(ch, timestamp, buf),
            SessionMode::Lesson(m) => m.on_key_press(ch, timestamp, buf),
        }
    }

    fn on_backspace(&mut self, buf: &mut TextBuffer) -> (r: ModeResult)
        ensures
            ((*final(self)) is Time) == ((*old(self)) is Time),
            !((*old(self)) is Time) ==> r == ModeResult::Continue,
            (*old(self)) is Time ==> exists|elapsed_ms: u64|
                r == #[trigger] (*old(self))->Time_0.backspace_result(elapsed_ms)
                    && (final(buf).start_time is None ==> elapsed_ms == 0),
    {
        match self {
            SessionMode::Time(m) => m.on_backspace(buf),
            SessionMode::Words(m) => m.on_backspace(buf),
            SessionMode::Quote(m) => m.on_backspace(buf),
            SessionMode::Lesson(m) => m.on_backspace(buf),
        }
    }

    fn is_complete(&self, buf: &TextBuffer) -> (b: bool)
        ensures
            !(self is Time) ==> b == buf.is_complete,
            self is Time ==> exists|elapsed_ms: u64|
                b == #[trigger] self->Time_0.complete_at(buf, elapsed_ms) && (buf.start_time is None
                    ==> elapsed_ms == 0),
    {
        match self {
            SessionMode::Time(m) => m.is_complete(buf),
            SessionMode::Words(m) => m.is_complete(buf),
            SessionMode::Quote(m) => m.is_complete(buf),
            SessionMode::Lesson(m) => m.is_complete(buf),
        }
    }

    fn get_text(&self) -> (s: &str) {
        match self {
            SessionMode::Time(m) => m.get_text(),
            SessionMode::Words(m) => m.get_text(),
            SessionMode::Quote(m) => m.get_text(),
            SessionMode::Lesson(m) => m.get_text(),
        }
    }

    fn language(&self) -> (s: &str)
        ensures
            s@ == self.language_view(),
    {
        match self {
            SessionMode::Time(m) => m.language(),
            SessionMode::Words(m) => m.language(),
            SessionMode::Quote(m) => m.language(),
            SessionMode::Lesson(m) => m.language(),
        }
    }
}

} // verus!

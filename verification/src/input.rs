//! Classification of raw keyboard events.

use vstd::prelude::*;

use crate::text::{char_is_control, chars_of, is_control_char, str_equals};

verus! {

/// What a key does once classified.
#[derive(Debug, Clone, Copy, PartialEq, Eq, Structural)]
pub enum KeyAction {
    /// A printable character.
    Print(char),
    /// Erase the previous character.
    Backspace,
    /// Confirm / next line.
    Enter,
    /// Abort the test.
    Escape,
    /// Quick restart.
    Tab,
    /// Ignored (modifier-only and similar).
    Ignore,
}

/// A raw keyboard event from the interface.
#[derive(Debug, Clone)]
pub struct KeyEvent {
    pub key: String,
    pub code: String,
    pub timestamp: u64,
}

/// Outcome of validating input against the session.
#[derive(Debug, Clone, Copy, PartialEq, Eq, Structural)]
pub enum InputValidation {
    /// Accepted and classified.
    Accepted(KeyAction),
    /// No test is active.
    NoActiveTest,
    /// The test has ended.
    TestEnded,
}

/// Key classifier.
pub struct KeyClassifier;

/// Physical codes of modifier-only keys.
pub open spec fn is_modifier_code(code: Seq<char>) -> bool {
    code == "ShiftLeft"@ || code == "ShiftRight"@ || code == "ControlLeft"@ || code
        == "ControlRight"@ || code == "AltLeft"@ || code == "AltRight"@ || code == "MetaLeft"@
        || code == "MetaRight"@ || code == "CapsLock"@ || code == "ContextMenu"@
}

/// The classification of a key/code pair.
pub open spec fn classify_key(key: Seq<char>, code: Seq<char>) -> KeyAction {
    if key == "Backspace"@ {
        KeyAction::Backspace
    } else if key == "Enter"@ {
        KeyAction::Enter
    } else if key == "Escape"@ {
        KeyAction::Escape
    } else if key == "Tab"@ {
        KeyAction::Tab
    } else if is_modifier_code(code) {
        KeyAction::Ignore
    } else if key.len() == 1 && (!is_control_char(key[0]) || key[0] == ' ' || key[0] == '\t') {
        KeyAction::Print(key[0])
    } else {
        KeyAction::Ignore
    }
}

fn code_is_modifier(code: &str) -> (r: bool)
    ensures
        r == is_modifier_code(code@),
{
    str_equals(code, "ShiftLeft") || str_equals(code, "ShiftRight") || str_equals(
        code,
        "ControlLeft",
    ) || str_equals(code, "ControlRight") || str_equals(code, "AltLeft") || str_equals(
        code,
        "AltRight",
    ) || str_equals(code, "MetaLeft") || str_equals(code, "MetaRight") || str_equals(
        code,
        "CapsLock",
    ) || str_equals(code, "ContextMenu")
}

impl KeyClassifier {
    /// Classifies a raw event: the four special keys by name, modifier-only
    /// keys by code, and otherwise a `key` that is one printable character
    /// (space and tab included); named keys such as `ArrowLeft` are ignored.
    pub fn classify(key: &str, code: &str) -> (a: KeyAction)
        ensures
            a == classify_key(key@, code@),
    {
        if str_equals(key, "Backspace") {
            return KeyAction::Backspace;
        }
        if str_equals(key, "Enter") {
            return KeyAction::Enter;
        }
        if str_equals(key, "Escape") {
            return KeyAction::Escape;
        }
        if str_equals(key, "Tab") {
            return KeyAction::Tab;
        }
        if code_is_modifier(code) {
            return KeyAction::Ignore;
        }
        let chars = chars_of(key);
        if chars.len() == 1 {
            let ch = chars[0];
            if !char_is_control(ch) || ch == ' ' || ch == '\t' {
                return KeyAction::Print(ch);
            }
        }
        KeyAction::Ignore
    }
}

} // verus!

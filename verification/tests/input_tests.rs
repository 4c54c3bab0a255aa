use racoon_typper::input::{KeyAction, KeyClassifier};

#[test]
fn classify_print() {
    assert_eq!(KeyClassifier::classify("a", "KeyA"), KeyAction::Print('a'));
    assert_eq!(KeyClassifier::classify("A", "KeyA"), KeyAction::Print('A'));
    assert_eq!(KeyClassifier::classify("1", "Digit1"), KeyAction::Print('1'));
}

#[test]
fn classify_space() {
    assert_eq!(KeyClassifier::classify(" ", "Space"), KeyAction::Print(' '));
}

#[test]
fn classify_backspace() {
    assert_eq!(KeyClassifier::classify("Backspace", "Backspace"), KeyAction::Backspace);
}

#[test]
fn classify_enter() {
    assert_eq!(KeyClassifier::classify("Enter", "Enter"), KeyAction::Enter);
}

#[test]
fn classify_escape() {
    assert_eq!(KeyClassifier::classify("Escape", "Escape"), KeyAction::Escape);
}

#[test]
fn classify_tab() {
    assert_eq!(KeyClassifier::classify("Tab", "Tab"), KeyAction::Tab);
}

#[test]
fn classify_shift_ignored() {
    assert_eq!(KeyClassifier::classify("Shift", "ShiftLeft"), KeyAction::Ignore);
    assert_eq!(KeyClassifier::classify("Control", "ControlRight"), KeyAction::Ignore);
}

#[test]
fn classify_empty_ignored() {
    assert_eq!(KeyClassifier::classify("", ""), KeyAction::Ignore);
}

#[test]
fn classify_named_keys_are_ignored() {
    assert_eq!(KeyClassifier::classify("ArrowLeft", "ArrowLeft"), KeyAction::Ignore);
    assert_eq!(KeyClassifier::classify("Delete", "Delete"), KeyAction::Ignore);
    assert_eq!(KeyClassifier::classify("F5", "F5"), KeyAction::Ignore);
}

#[test]
fn classify_control_character_is_ignored() {
    assert_eq!(KeyClassifier::classify("\u{7}", "Unidentified"), KeyAction::Ignore);
    assert_eq!(KeyClassifier::classify("\t", "Unidentified"), KeyAction::Print('\t'));
}

#[test]
fn classify_cyrillic_letter() {
    assert_eq!(KeyClassifier::classify("ф", "KeyA"), KeyAction::Print('ф'));
}

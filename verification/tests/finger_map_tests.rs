use racoon_typper::finger_map::{
    finger_for_char, finger_for_key_jcuken, finger_for_key_qwerty, is_home_row, Finger,
};

#[test]
fn finger_for_qwerty_home_row() {
    assert_eq!(finger_for_key_qwerty('a'), Finger::LeftPinky);
    assert_eq!(finger_for_key_qwerty('s'), Finger::LeftRing);
    assert_eq!(finger_for_key_qwerty('d'), Finger::LeftMiddle);
    assert_eq!(finger_for_key_qwerty('f'), Finger::LeftIndex);
    assert_eq!(finger_for_key_qwerty('j'), Finger::RightIndex);
    assert_eq!(finger_for_key_qwerty('k'), Finger::RightMiddle);
    assert_eq!(finger_for_key_qwerty('l'), Finger::RightRing);
    assert_eq!(finger_for_key_qwerty(';'), Finger::RightPinky);
}

#[test]
fn finger_for_qwerty_top_row() {
    assert_eq!(finger_for_key_qwerty('q'), Finger::LeftPinky);
    assert_eq!(finger_for_key_qwerty('w'), Finger::LeftRing);
    assert_eq!(finger_for_key_qwerty('e'), Finger::LeftMiddle);
    assert_eq!(finger_for_key_qwerty('r'), Finger::LeftIndex);
    assert_eq!(finger_for_key_qwerty('y'), Finger::RightIndex);
    assert_eq!(finger_for_key_qwerty('i'), Finger::RightMiddle);
    assert_eq!(finger_for_key_qwerty('o'), Finger::RightRing);
    assert_eq!(finger_for_key_qwerty('p'), Finger::RightPinky);
}

#[test]
fn finger_for_qwerty_bottom_row() {
    assert_eq!(finger_for_key_qwerty('z'), Finger::LeftPinky);
    assert_eq!(finger_for_key_qwerty('x'), Finger::LeftRing);
    assert_eq!(finger_for_key_qwerty('c'), Finger::LeftMiddle);
    assert_eq!(finger_for_key_qwerty('v'), Finger::LeftIndex);
    assert_eq!(finger_for_key_qwerty('n'), Finger::RightIndex);
    assert_eq!(finger_for_key_qwerty('m'), Finger::RightIndex);
}

#[test]
fn finger_for_space() {
    assert_eq!(finger_for_key_qwerty(' '), Finger::RightThumb);
}

#[test]
fn finger_for_uppercase() {
    assert_eq!(finger_for_key_qwerty('A'), Finger::LeftPinky);
    assert_eq!(finger_for_key_qwerty('F'), Finger::LeftIndex);
    assert_eq!(finger_for_key_qwerty('J'), Finger::RightIndex);
}

#[test]
fn finger_for_jcuken_home_row() {
    assert_eq!(finger_for_key_jcuken('ф'), Finger::LeftPinky);
    assert_eq!(finger_for_key_jcuken('ы'), Finger::LeftRing);
    assert_eq!(finger_for_key_jcuken('в'), Finger::LeftMiddle);
    assert_eq!(finger_for_key_jcuken('а'), Finger::LeftIndex);
    assert_eq!(finger_for_key_jcuken('о'), Finger::RightIndex);
}

#[test]
fn finger_for_char_russian() {
    assert_eq!(finger_for_char('ф', true), Finger::LeftPinky);
    assert_eq!(finger_for_char('а', true), Finger::LeftIndex);
}

#[test]
fn finger_for_char_english() {
    assert_eq!(finger_for_char('a', false), Finger::LeftPinky);
    assert_eq!(finger_for_char('f', false), Finger::LeftIndex);
}

#[test]
fn finger_is_left() {
    assert!(Finger::LeftPinky.is_left());
    assert!(Finger::LeftIndex.is_left());
    assert!(!Finger::RightIndex.is_left());
    assert!(!Finger::RightPinky.is_left());
}

#[test]
fn finger_display_name() {
    assert_eq!(Finger::LeftIndex.display_name(), "Left Index");
    assert_eq!(Finger::RightPinky.display_name(), "Right Pinky");
}

#[test]
fn is_home_row_qwerty() {
    assert!(is_home_row('a', false));
    assert!(is_home_row('s', false));
    assert!(is_home_row('f', false));
    assert!(is_home_row('j', false));
    assert!(!is_home_row('q', false));
    assert!(!is_home_row('z', false));
}

#[test]
fn is_home_row_jcuken() {
    assert!(is_home_row('ф', true));
    assert!(is_home_row('ы', true));
    assert!(!is_home_row('й', true));
}

#[test]
fn is_home_row_uppercase() {
    assert!(is_home_row('A', false));
    assert!(is_home_row('F', false));
}

#[test]
fn left_fingers_are_exactly_those_named_left() {
    for f in [
        Finger::LeftPinky,
        Finger::LeftRing,
        Finger::LeftMiddle,
        Finger::LeftIndex,
        Finger::LeftThumb,
        Finger::RightThumb,
        Finger::RightIndex,
        Finger::RightMiddle,
        Finger::RightRing,
        Finger::RightPinky,
    ] {
        assert_eq!(f.is_left(), f.display_name().starts_with("Left "));
    }
}

#[test]
fn right_fingers_are_named_right_and_names_are_distinct() {
    let all = [
        Finger::LeftPinky,
        Finger::LeftRing,
        Finger::LeftMiddle,
        Finger::LeftIndex,
        Finger::LeftThumb,
        Finger::RightThumb,
        Finger::RightIndex,
        Finger::RightMiddle,
        Finger::RightRing,
        Finger::RightPinky,
    ];
    for f in all {
        assert_eq!(!f.is_left(), f.display_name().starts_with("Right "));
        for g in all {
            assert_eq!(f == g, f.display_name() == g.display_name());
        }
    }
}

#[test]
fn letter_case_never_changes_the_qwerty_finger() {
    for c in (0u8..128).map(char::from) {
        assert_eq!(
            finger_for_key_qwerty(c.to_ascii_uppercase()),
            finger_for_key_qwerty(c.to_ascii_lowercase())
        );
    }
}

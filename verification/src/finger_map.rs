//! Which finger presses which key, for the QWERTY and JCUKEN layouts.

use vstd::prelude::*;

use crate::text::{ascii_lower, ascii_upper, char_lowercase_first, char_to_ascii_lower, lowercase_first};

verus! {

/// A finger.
#[derive(Debug, Clone, Copy, PartialEq, Eq, Structural)]
pub enum Finger {
    LeftPinky,
    LeftRing,
    LeftMiddle,
    LeftIndex,
    LeftThumb,
    RightThumb,
    RightIndex,
    RightMiddle,
    RightRing,
    RightPinky,
}

/// Human-readable name of a finger.
pub open spec fn finger_name(f: Finger) -> Seq<char> {
    match f {
        Finger::LeftPinky => "Left Pinky"@,
        Finger::LeftRing => "Left Ring"@,
        Finger::LeftMiddle => "Left Middle"@,
        Finger::LeftIndex => "Left Index"@,
        Finger::LeftThumb => "Left Thumb"@,
        Finger::RightThumb => "Right Thumb"@,
        Finger::RightIndex => "Right Index"@,
        Finger::RightMiddle => "Right Middle"@,
        Finger::RightRing => "Right Ring"@,
        Finger::RightPinky => "Right Pinky"@,
    }
}

/// True for the five fingers of the left hand.
pub open spec fn finger_is_left(f: Finger) -> bool {
    f is LeftPinky || f is LeftRing || f is LeftMiddle || f is LeftIndex || f is LeftThumb
}

/// A finger belongs to the left hand exactly when its name starts with
/// `Left `.
pub proof fn left_fingers_are_named_left(f: Finger)
    ensures
        finger_is_left(f) <==> (finger_name(f).len() >= 5 && finger_name(f).take(5) =~= "Left "@),
{
    reveal_strlit("Left ");
    reveal_strlit("Left Pinky");
    reveal_strlit("Left Ring");
    reveal_strlit("Left Middle");
    reveal_strlit("Left Index");
    reveal_strlit("Left Thumb");
    reveal_strlit("Right Thumb");
    reveal_strlit("Right Index");
    reveal_strlit("Right Middle");
    reveal_strlit("Right Ring");
    reveal_strlit("Right Pinky");
    if !finger_is_left(f) {
        assert(finger_name(f)[0] == 'R');
        assert("Left "@[0] == 'L');
        if finger_name(f).len() >= 5 && finger_name(f).take(5) =~= "Left "@ {
            assert(finger_name(f).take(5)[0] == finger_name(f)[0]);
        }
    }
}

/// A finger belongs to the right hand exactly when its name starts with
/// `Right `.
pub proof fn right_fingers_are_named_right(f: Finger)
    ensures
        !finger_is_left(f) <==> (finger_name(f).len() >= 6 && finger_name(f).take(6) =~= "Right "@),
{
    reveal_strlit("Right ");
    reveal_strlit("Left Pinky");
    reveal_strlit("Left Ring");
    reveal_strlit("Left Middle");
    reveal_strlit("Left Index");
    reveal_strlit("Left Thumb");
    reveal_strlit("Right Thumb");
    reveal_strlit("Right Index");
    reveal_strlit("Right Middle");
    reveal_strlit("Right Ring");
    reveal_strlit("Right Pinky");
    if finger_is_left(f) {
        assert(finger_name(f)[0] == 'L');
        assert("Right "@[0] == 'R');
        if finger_name(f).len() >= 6 && finger_name(f).take(6) =~= "Right "@ {
            assert(finger_name(f).take(6)[0] == finger_name(f)[0]);
        }
    }
}

/// No two fingers share a name.
pub proof fn finger_names_are_distinct(f: Finger, g: Finger)
    ensures
        finger_name(f) == finger_name(g) ==> f == g,
{
    reveal_strlit("Left Pinky");
    reveal_strlit("Left Ring");
    reveal_strlit("Left Middle");
    reveal_strlit("Left Index");
    reveal_strlit("Left Thumb");
    reveal_strlit("Right Thumb");
    reveal_strlit("Right Index");
    reveal_strlit("Right Middle");
    reveal_strlit("Right Ring");
    reveal_strlit("Right Pinky");
    let (x, y) = (finger_name(f), finger_name(g));
    if f != g {
        assert(x[0] != y[0] || x[5] != y[5] || x[6] != y[6]);
    }
}

/// Letter case never changes the QWERTY finger: a key typed in ASCII upper
/// case and in lower case goes to the same finger.
pub proof fn qwerty_finger_ignores_case(c: char)
    ensures
        qwerty_finger(ascii_lower(ascii_upper(c))) == qwerty_finger(ascii_lower(ascii_lower(c))),
{
    if 'a' <= c && c <= 'z' {
        let u = ((c as u32) - 32) as char;
        assert('A' <= u && u <= 'Z');
        assert(((u as u32) + 32) as char == c);
    } else if 'A' <= c && c <= 'Z' {
        let l = ((c as u32) + 32) as char;
        assert('a' <= l && l <= 'z');
    }
}

impl Finger {
    /// Human-readable name.
    pub fn display_name(&self) -> (s: &'static str)
        ensures
            s@ == finger_name(*self),
    {
        match self {
            Finger::LeftPinky => "Left Pinky",
            Finger::LeftRing => "Left Ring",
            Finger::LeftMiddle => "Left Middle",
            Finger::LeftIndex => "Left Index",
            Finger::LeftThumb => "Left Thumb",
            Finger::RightThumb => "Right Thumb",
            Finger::RightIndex => "Right Index",
            Finger::RightMiddle => "Right Middle",
            Finger::RightRing => "Right Ring",
            Finger::RightPinky => "Right Pinky",
        }
    }

    /// True for a finger of the left hand.
    pub fn is_left(&self) -> (b: bool)
        ensures
            b == finger_is_left(*self),
    {
        match self {
            Finger::LeftPinky | Finger::LeftRing | Finger::LeftMiddle | Finger::LeftIndex
            | Finger::LeftThumb => true,
            _ => false,
        }
    }
}

/// QWERTY finger of an already lower-cased key.
pub open spec fn qwerty_finger(c: char) -> Finger {
    if c == 'q' || c == 'a' || c == 'z' || c == '1' {
        Finger::LeftPinky
    } else if c == 'w' || c == 's' || c == 'x' || c == '2' {
        Finger::LeftRing
    } else if c == 'e' || c == 'd' || c == 'c' || c == '3' {
        Finger::LeftMiddle
    } else if c == 'r' || c == 'f' || c == 'v' || c == 't' || c == 'g' || c == 'b' || c == '4'
        || c == '5' {
        Finger::LeftIndex
    } else if c == 'y' || c == 'h' || c == 'n' || c == 'u' || c == 'j' || c == 'm' || c == '6'
        || c == '7' {
        Finger::RightIndex
    } else if c == 'i' || c == 'k' || c == ',' || c == '8' {
        Finger::RightMiddle
    } else if c == 'o' || c == 'l' || c == '.' || c == '9' {
        Finger::RightRing
    } else if c == 'p' || c == ';' || c == '/' || c == '0' || c == '-' || c == '=' || c == '\'' {
        Finger::RightPinky
    } else if c == ' ' {
        Finger::RightThumb
    } else {
        Finger::LeftPinky
    }
}

/// Column of a key on the QWERTY main block, counted from the left
/// (number row, top, home and bottom rows; the keys right of the `0` and
/// `;` columns share the last column); -1 for other keys.
pub open spec fn qwerty_column(c: char) -> int {
    if c == '1' || c == 'q' || c == 'a' || c == 'z' {
        0
    } else if c == '2' || c == 'w' || c == 's' || c == 'x' {
        1
    } else if c == '3' || c == 'e' || c == 'd' || c == 'c' {
        2
    } else if c == '4' || c == 'r' || c == 'f' || c == 'v' {
        3
    } else if c == '5' || c == 't' || c == 'g' || c == 'b' {
        4
    } else if c == '6' || c == 'y' || c == 'h' || c == 'n' {
        5
    } else if c == '7' || c == 'u' || c == 'j' || c == 'm' {
        6
    } else if c == '8' || c == 'i' || c == 'k' || c == ',' {
        7
    } else if c == '9' || c == 'o' || c == 'l' || c == '.' {
        8
    } else if c == '0' || c == 'p' || c == ';' || c == '/' {
        9
    } else if c == '-' || c == '=' || c == '\'' {
        10
    } else {
        -1
    }
}

/// Touch typing on QWERTY: keys of one column share a finger, the five
/// left columns belong to the left hand and the rest to the right hand,
/// the two inner columns of each hand share its index finger, and the
/// columns run pinky, ring, middle, index from the outside in.
pub proof fn qwerty_fingers_follow_columns(c: char, d: char)
    ensures
        0 <= qwerty_column(c) && qwerty_column(c) == qwerty_column(d) ==> qwerty_finger(c)
            == qwerty_finger(d),
        0 <= qwerty_column(c) < 5 ==> finger_is_left(qwerty_finger(c)),
        5 <= qwerty_column(c) ==> !finger_is_left(qwerty_finger(c)),
        qwerty_column(c) == 0 ==> qwerty_finger(c) == Finger::LeftPinky,
        qwerty_column(c) >= 9 <==> qwerty_finger(c) == Finger::RightPinky,
        qwerty_column(c) == 1 <==> qwerty_finger(c) == Finger::LeftRing,
        qwerty_column(c) == 2 <==> qwerty_finger(c) == Finger::LeftMiddle,
        qwerty_column(c) == 3 || qwerty_column(c) == 4 <==> qwerty_finger(c) == Finger::LeftIndex,
        qwerty_column(c) == 5 || qwerty_column(c) == 6 <==> qwerty_finger(c) == Finger::RightIndex,
        qwerty_column(c) == 7 <==> qwerty_finger(c) == Finger::RightMiddle,
        qwerty_column(c) == 8 <==> qwerty_finger(c) == Finger::RightRing,
{
}

/// JCUKEN finger of an already lower-cased key.
pub open spec fn jcuken_finger(c: char) -> Finger {
    if c == 'ф' || c == 'я' || c == 'ё' {
        Finger::LeftPinky
    } else if c == 'ы' || c == 'ч' || c == 'ц' || c == '1' {
        Finger::LeftRing
    } else if c == 'в' || c == 'с' || c == 'у' || c == '2' {
        Finger::LeftMiddle
    } else if c == 'а' || c == 'п' || c == 'к' || c == 'м' || c == '3' || c == '4' {
        Finger::LeftIndex
    } else if c == 'о' || c == 'л' || c == 'д' || c == 'р' || c == 'т' || c == '5' || c == '6' {
        Finger::RightIndex
    } else if c == 'е' || c == 'г' || c == 'ш' || c == '7' {
        Finger::RightMiddle
    } else if c == 'н' || c == 'щ' || c == 'з' || c == '8' {
        Finger::RightRing
    } else if c == 'ь' || c == 'б' || c == 'ю' || c == 'ъ' || c == '9' || c == '0' {
        Finger::RightPinky
    } else if c == ' ' {
        Finger::RightThumb
    } else {
        Finger::LeftPinky
    }
}

/// `c` lower-cased by Unicode rules, or `fallback` if no mapping is produced.
pub open spec fn lower_or(c: char, fallback: char) -> char {
    match lowercase_first(c) {
        Some(l) => l,
        None => fallback,
    }
}

/// The 33 lower-case letters of the Russian alphabet.
pub open spec fn is_russian_lower(c: char) -> bool {
    ('а' <= c && c <= 'я') || c == 'ё'
}

/// Finger for a character typed on the Russian layout or the English one.
pub open spec fn finger_for(c: char, is_russian: bool) -> Finger {
    if is_russian && is_russian_lower(lower_or(c, ' ')) {
        jcuken_finger(lower_or(c, c))
    } else {
        qwerty_finger(ascii_lower(c))
    }
}

fn qwerty_finger_exec(c: char) -> (f: Finger)
    ensures
        f == qwerty_finger(c),
{
    match c {
        'q' | 'a' | 'z' | '1' => Finger::LeftPinky,
        'w' | 's' | 'x' | '2' => Finger::LeftRing,
        'e' | 'd' | 'c' | '3' => Finger::LeftMiddle,
        'r' | 'f' | 'v' | 't' | 'g' | 'b' | '4' | '5' => Finger::LeftIndex,
        'y' | 'h' | 'n' | 'u' | 'j' | 'm' | '6' | '7' => Finger::RightIndex,
        'i' | 'k' | ',' | '8' => Finger::RightMiddle,
        'o' | 'l' | '.' | '9' => Finger::RightRing,
        'p' | ';' | '/' | '0' | '-' | '=' | '\'' => Finger::RightPinky,
        ' ' => Finger::RightThumb,
        _ => Finger::LeftPinky,
    }
}

fn jcuken_finger_exec(c: char) -> (f: Finger)
    ensures
        f == jcuken_finger(c),
{
    match c {
        'ф' | 'я' | 'ё' => Finger::LeftPinky,
        'ы' | 'ч' | 'ц' | '1' => Finger::LeftRing,
        'в' | 'с' | 'у' | '2' => Finger::LeftMiddle,
        'а' | 'п' | 'к' | 'м' | '3' | '4' => Finger::LeftIndex,
        'о' | 'л' | 'д' | 'р' | 'т' | '5' | '6' => Finger::RightIndex,
        'е' | 'г' | 'ш' | '7' => Finger::RightMiddle,
        'н' | 'щ' | 'з' | '8' => Finger::RightRing,
        'ь' | 'б' | 'ю' | 'ъ' | '9' | '0' => Finger::RightPinky,
        ' ' => Finger::RightThumb,
        _ => Finger::LeftPinky,
    }
}

fn lower_or_exec(c: char, fallback: char) -> (r: char)
    ensures
        r == lower_or(c, fallback),
{
    match char_lowercase_first(c) {
        Some(l) => l,
        None => fallback,
    }
}

/// QWERTY finger for a key, ignoring ASCII case.
pub fn finger_for_key_qwerty(ch: char) -> (f: Finger)
    ensures
        f == qwerty_finger(ascii_lower(ch)),
{
    qwerty_finger_exec(char_to_ascii_lower(ch))
}

/// JCUKEN (Russian) finger for a key, ignoring case.
pub fn finger_for_key_jcuken(ch: char) -> (f: Finger)
    ensures
        f == jcuken_finger(lower_or(ch, ch)),
{
    jcuken_finger_exec(lower_or_exec(ch, ch))
}

/// Finger for a character: Russian letters use JCUKEN when the layout is
/// Russian; everything else uses QWERTY.
pub fn finger_for_char(ch: char, is_russian: bool) -> (f: Finger)
    ensures
        f == finger_for(ch, is_russian),
{
    if is_russian {
        let l = lower_or_exec(ch, ' ');
        if ('а' <= l && l <= 'я') || l == 'ё' {
            finger_for_key_jcuken(ch)
        } else {
            finger_for_key_qwerty(ch)
        }
    } else {
        finger_for_key_qwerty(ch)
    }
}

/// Home-row keys of QWERTY.
pub open spec fn is_qwerty_home(c: char) -> bool {
    c == 'a' || c == 's' || c == 'd' || c == 'f' || c == 'g' || c == 'h' || c == 'j' || c == 'k'
        || c == 'l' || c == ';'
}

/// Home-row keys of JCUKEN.
pub open spec fn is_jcuken_home(c: char) -> bool {
    c == 'ф' || c == 'ы' || c == 'в' || c == 'а' || c == 'п' || c == 'о' || c == 'л' || c == 'д'
        || c == 'ж' || c == 'э'
}

/// True when the (lower-cased) character lies on the home row.
pub fn is_home_row(ch: char, is_russian: bool) -> (b: bool)
    ensures
        b == (if is_russian {
            is_jcuken_home(lower_or(ch, ch))
        } else {
            is_qwerty_home(lower_or(ch, ch))
        }),
{
    let lower = lower_or_exec(ch, ch);
    if is_russian {
        match lower {
            'ф' | 'ы' | 'в' | 'а' | 'п' | 'о' | 'л' | 'д' | 'ж' | 'э' => true,
            _ => false,
        }
    } else {
        match lower {
            'a' | 's' | 'd' | 'f' | 'g' | 'h' | 'j' | 'k' | 'l' | ';' => true,
            _ => false,
        }
    }
}

} // verus!

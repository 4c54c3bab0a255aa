//! Stored replay frames: how the keystrokes of a completed session are
//! projected into rows, and how stored rows are checked against them.

use vstd::prelude::*;

use crate::domain::CharStatus;
use crate::error::DbError;
use crate::text::{str_equals, string_from_chars};

verus! {

/// One stored replay row.
#[derive(Debug, Clone)]
pub struct ReplayFrame {
    pub id: i64,
    pub test_id: i64,
    pub frame_index: i64,
    pub timestamp_ms: i64,
    pub position: i64,
    pub expected_char: String,
    pub typed_char: Option<String>,
    pub correct: bool,
}

/// Why the keystroke `f`, the `index`-th of its session, has no row.
pub open spec fn projection_error(f: crate::engine::ReplayFrame, index: int) -> Option<Seq<char>> {
    if index > i64::MAX {
        Some("replay index exceeds i64"@)
    } else if f.timestamp_ms > i64::MAX {
        Some("replay timestamp exceeds i64"@)
    } else if f.caret_pos > i64::MAX {
        Some("replay position exceeds i64"@)
    } else {
        None
    }
}

/// What the typed key is stored as: the typed character, or the key's
/// name when no character was typed.
pub open spec fn typed_text(f: crate::engine::ReplayFrame) -> Seq<char> {
    match f.typed_char {
        Some(c) => seq![c],
        None => f.key@,
    }
}

/// `row` is the projection of the keystroke `f`, the `index`-th of the
/// session stored as test `test_id`.
pub open spec fn projects(row: ReplayFrame, f: crate::engine::ReplayFrame, index: int, test_id: i64) -> bool {
    &&& row.id == 0
    &&& row.test_id == test_id
    &&& row.frame_index == index
    &&& row.timestamp_ms == f.timestamp_ms
    &&& row.position == f.caret_pos
    &&& row.expected_char@ == seq![f.expected_char]
    &&& row.typed_char matches Some(t) && t@ == typed_text(f)
    &&& row.correct == (f.char_status == CharStatus::Correct)
}

fn project_frame(f: &crate::engine::ReplayFrame, index: usize, test_id: i64) -> (r: Result<
    ReplayFrame,
    DbError,
>)
    ensures
        r is Ok == (projection_error(*f, index as int) is None),
        r matches Ok(row) ==> projects(row, *f, index as int, test_id),
        r matches Err(e) ==> e matches DbError::Integrity(m) && projection_error(
            *f,
            index as int,
        ) == Some(m@),
{
    if index as u64 > i64::MAX as u64 {
        return Err(DbError::Integrity("replay index exceeds i64".to_owned()));
    }
    if f.timestamp_ms > i64::MAX as u64 {
        return Err(DbError::Integrity("replay timestamp exceeds i64".to_owned()));
    }
    if f.caret_pos as u64 > i64::MAX as u64 {
        return Err(DbError::Integrity("replay position exceeds i64".to_owned()));
    }
    let typed = match f.typed_char {
        Some(c) => {
            let one = [c];
            assert(one@ =~= seq![c]);
            string_from_chars(&one)
        },
        None => f.key.clone(),
    };
    let expected = [f.expected_char];
    assert(expected@ =~= seq![f.expected_char]);
    Ok(
        ReplayFrame {
            id: 0,
            test_id,
            frame_index: index as i64,
            timestamp_ms: f.timestamp_ms as i64,
            position: f.caret_pos as i64,
            expected_char: string_from_chars(&expected),
            typed_char: Some(typed),
            correct: f.char_status == CharStatus::Correct,
        },
    )
}

/// The rows of the keystrokes `frames` of test `test_id`, in order; the
/// first keystroke whose index, time or caret position does not fit an
/// `i64` stops the projection.
pub fn replay_projection(frames: &[crate::engine::ReplayFrame], test_id: i64) -> (r: Result<
    Vec<ReplayFrame>,
    DbError,
>)
    ensures
        r is Ok == (forall|j: int|
            0 <= j < frames@.len() ==> (#[trigger] projection_error(frames@[j], j)) is None),
        r matches Ok(rows) ==> rows@.len() == frames@.len() && forall|j: int|
            0 <= j < frames@.len() ==> projects(#[trigger] rows@[j], frames@[j], j, test_id),
        r matches Err(e) ==> e matches DbError::Integrity(m) && exists|j: int|
            0 <= j < frames@.len() && (#[trigger] projection_error(frames@[j], j)) == Some(m@)
                && forall|k: int| 0 <= k < j ==> (#[trigger] projection_error(frames@[k], k)) is None,
{
    let mut rows: Vec<ReplayFrame> = Vec::new();
    let mut i: usize = 0;
    while i < frames.len()
        invariant
            i <= frames.len(),
            rows@.len() == i,
            forall|j: int| 0 <= j < i ==> (#[trigger] projection_error(frames@[j], j)) is None,
            forall|j: int| 0 <= j < i ==> projects(#[trigger] rows@[j], frames@[j], j, test_id),
        decreases frames.len() - i,
    {
        match project_frame(&frames[i], i, test_id) {
            Ok(row) => {
                rows.push(row);
            },
            Err(e) => {
                assert(projection_error(frames@[i as int], i as int) is Some);
                return Err(e);
            },
        }
        i = i + 1;
    }
    Ok(rows)
}

/// `actual`, loaded for test `test_id`, agrees with the projected row
/// `expected` (row ids aside).
pub open spec fn row_agrees(actual: ReplayFrame, expected: ReplayFrame, test_id: i64) -> bool {
    &&& actual.test_id == test_id
    &&& actual.frame_index == expected.frame_index
    &&& actual.timestamp_ms == expected.timestamp_ms
    &&& actual.position == expected.position
    &&& actual.expected_char@ == expected.expected_char@
    &&& match (actual.typed_char, expected.typed_char) {
        (None, None) => true,
        (Some(a), Some(e)) => a@ == e@,
        _ => false,
    }
    &&& actual.correct == expected.correct
}

fn rows_agree(actual: &ReplayFrame, expected: &ReplayFrame, test_id: i64) -> (b: bool)
    ensures
        b == row_agrees(*actual, *expected, test_id),
{
    let typed = match (&actual.typed_char, &expected.typed_char) {
        (None, None) => true,
        (Some(a), Some(e)) => str_equals(a.as_str(), e.as_str()),
        _ => false,
    };
    actual.test_id == test_id && actual.frame_index == expected.frame_index && actual.timestamp_ms
        == expected.timestamp_ms && actual.position == expected.position && str_equals(
        actual.expected_char.as_str(),
        expected.expected_char.as_str(),
    ) && typed && actual.correct == expected.correct
}

/// Whether the stored rows `actual` of test `test_id` are exactly the
/// projected rows `expected`, one for one.
pub fn replay_matches(actual: &[ReplayFrame], expected: &[ReplayFrame], test_id: i64) -> (b: bool)
    ensures
        b == (actual@.len() == expected@.len() && forall|j: int|
            0 <= j < actual@.len() ==> row_agrees(#[trigger] actual@[j], expected@[j], test_id)),
{
    if actual.len() != expected.len() {
        return false;
    }
    let mut i: usize = 0;
    while i < actual.len()
        invariant
            i <= actual.len(),
            actual@.len() == expected@.len(),
            forall|j: int| 0 <= j < i ==> row_agrees(#[trigger] actual@[j], expected@[j], test_id),
        decreases actual.len() - i,
    {
        if !rows_agree(&actual[i], &expected[i], test_id) {
            return false;
        }
        i = i + 1;
    }
    true
}

} // verus!

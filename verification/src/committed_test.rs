//! Whether a stored test row is the one a completion intent asks for: the
//! check that lets a retried finalization accept a test written by an
//! earlier, interrupted attempt.

use vstd::prelude::*;

use crate::replay_store::{replay_matches, row_agrees, ReplayFrame};
use crate::text::{chars_of, str_equals};

verus! {

/// `serde_json::Value`, carried opaquely.
#[verifier::external_type_specification]
#[verifier::external_body]
pub struct ExJsonValue(serde_json::Value);

/// The value `serde_json::from_str::<Value>` decodes from `text`, if any.
pub uninterp spec fn json_parse(text: Seq<char>) -> Option<serde_json::Value>;

/// Whether two JSON values are equal under `serde_json::Value`'s `==`.
pub uninterp spec fn json_equal(a: serde_json::Value, b: serde_json::Value) -> bool;

/// Decodes `text` with `serde_json::from_str::<serde_json::Value>`; `None`
/// when it is not JSON. The contract names the value: the grammar is
/// serde_json's.
#[verifier::external_body]
fn parse_json_value(text: &str) -> (r: Option<serde_json::Value>)
    ensures
        r == json_parse(text@),
{
    serde_json::from_str::<serde_json::Value>(text).ok()
}

/// `serde_json::Value`'s `==`. The contract names the answer.
#[verifier::external_body]
fn json_values_equal(a: &serde_json::Value, b: &serde_json::Value) -> (r: bool)
    ensures
        r == json_equal(*a, *b),
{
    a == b
}

/// A stored `tests` row as the check reads it; fractional numbers are
/// carried as their IEEE 754 bit patterns.
#[derive(Debug, Clone)]
pub struct StoredTestRow {
    pub id: i64,
    pub created_at: String,
    pub mode_type: String,
    pub mode_config: String,
    pub language: String,
    pub text_length: i64,
    pub duration_ms: i64,
    pub wpm_bits: u64,
    pub raw_wpm_bits: u64,
    pub accuracy_bits: u64,
    pub raw_accuracy_bits: u64,
    pub consistency_bits: Option<u64>,
    pub correct_chars: i64,
    pub incorrect_chars: i64,
    pub backspaces: i64,
    pub char_stats: String,
    pub heatmap_data: String,
    pub graph_data: Option<String>,
    pub is_pb: i64,
    pub tags: String,
}

/// What a completion intent says of its test: the completion time as it is
/// stored, the counters, the fractional results as bit patterns and the
/// JSON values.
#[derive(Debug)]
pub struct IntentView {
    pub completed_at: String,
    pub mode_type: String,
    pub mode_config: serde_json::Value,
    pub language: String,
    pub text_length: u64,
    pub duration_ms: u64,
    pub wpm_bits: u64,
    pub raw_wpm_bits: u64,
    pub accuracy_bits: u64,
    pub raw_accuracy_bits: u64,
    pub consistency_bits: Option<u64>,
    pub correct_chars: u64,
    pub incorrect_chars: u64,
    pub backspaces: u64,
    pub char_stats: serde_json::Value,
    pub heatmap: serde_json::Value,
    pub graph_data: Option<serde_json::Value>,
}

/// An intent's count as compared with a stored column: itself when it fits
/// in `i64`, else `i64::MIN`.
pub open spec fn as_column(n: u64) -> int {
    if n <= i64::MAX {
        n as int
    } else {
        i64::MIN as int
    }
}

/// Whether stored JSON text decodes to the expected value.
pub open spec fn json_text_agrees(stored: Seq<char>, expected: serde_json::Value) -> bool {
    json_parse(stored) matches Some(v) && json_equal(v, expected)
}

/// Whether an optional stored JSON text agrees with an optional value: both
/// absent, or both present and agreeing.
pub open spec fn optional_json_agrees(
    stored: Option<String>,
    expected: Option<serde_json::Value>,
) -> bool {
    match (stored, expected) {
        (None, None) => true,
        (Some(s), Some(e)) => json_text_agrees(s@, e),
        _ => false,
    }
}

/// Whether the stored row is the test the intent describes: every column
/// equal (fractions bit for bit, JSON as decoded values), a personal-best
/// flag of 0 or 1, and no tags.
pub open spec fn test_row_matches(s: StoredTestRow, i: IntentView) -> bool {
    &&& s.created_at@ == i.completed_at@
    &&& s.mode_type@ == i.mode_type@
    &&& json_text_agrees(s.mode_config@, i.mode_config)
    &&& s.language@ == i.language@
    &&& s.text_length as int == as_column(i.text_length)
    &&& s.duration_ms as int == as_column(i.duration_ms)
    &&& s.wpm_bits == i.wpm_bits
    &&& s.raw_wpm_bits == i.raw_wpm_bits
    &&& s.accuracy_bits == i.accuracy_bits
    &&& s.raw_accuracy_bits == i.raw_accuracy_bits
    &&& s.consistency_bits == i.consistency_bits
    &&& s.correct_chars as int == as_column(i.correct_chars)
    &&& s.incorrect_chars as int == as_column(i.incorrect_chars)
    &&& s.backspaces as int == as_column(i.backspaces)
    &&& json_text_agrees(s.char_stats@, i.char_stats)
    &&& json_text_agrees(s.heatmap_data@, i.heatmap)
    &&& optional_json_agrees(s.graph_data, i.graph_data)
    &&& (s.is_pb == 0 || s.is_pb == 1)
    &&& s.tags@.len() == 0
}

/// Whether the stored replay rows are exactly the expected ones of test
/// `test_id`, one for one.
pub open spec fn replay_rows_match(actual: Seq<ReplayFrame>, expected: Seq<ReplayFrame>, test_id: i64) -> bool {
    actual.len() == expected.len() && forall|j: int|
        0 <= j < actual.len() ==> row_agrees(#[trigger] actual[j], expected[j], test_id)
}

fn column_equals(stored: i64, n: u64) -> (b: bool)
    ensures
        b == (stored as int == as_column(n)),
{
    if n <= i64::MAX as u64 {
        stored >= 0 && stored as u64 == n
    } else {
        stored == i64::MIN
    }
}

fn same_bits(a: Option<u64>, b: Option<u64>) -> (r: bool)
    ensures
        r == (a == b),
{
    match (a, b) {
        (None, None) => true,
        (Some(x), Some(y)) => x == y,
        _ => false,
    }
}

fn json_text_matches(stored: &str, expected: &serde_json::Value) -> (b: bool)
    ensures
        b == json_text_agrees(stored@, *expected),
{
    match parse_json_value(stored) {
        Some(v) => json_values_equal(&v, expected),
        None => false,
    }
}

fn optional_json_text_matches(stored: &Option<String>, expected: &Option<serde_json::Value>) -> (b:
    bool)
    ensures
        b == optional_json_agrees(*stored, *expected),
{
    match (stored, expected) {
        (None, None) => true,
        (Some(s), Some(e)) => json_text_matches(s.as_str(), e),
        _ => false,
    }
}

/// Whether the stored test row is the test the intent describes (the row's
/// columns, before its replay is read).
pub fn stored_row_matches_intent(stored: &StoredTestRow, intent: &IntentView) -> (r: bool)
    ensures
        r == test_row_matches(*stored, *intent),
{
    str_equals(stored.created_at.as_str(), intent.completed_at.as_str())
        && str_equals(stored.mode_type.as_str(), intent.mode_type.as_str())
        && json_text_matches(stored.mode_config.as_str(), &intent.mode_config)
        && str_equals(stored.language.as_str(), intent.language.as_str())
        && column_equals(stored.text_length, intent.text_length)
        && column_equals(stored.duration_ms, intent.duration_ms)
        && stored.wpm_bits == intent.wpm_bits
        && stored.raw_wpm_bits == intent.raw_wpm_bits
        && stored.accuracy_bits == intent.accuracy_bits
        && stored.raw_accuracy_bits == intent.raw_accuracy_bits
        && same_bits(stored.consistency_bits, intent.consistency_bits)
        && column_equals(stored.correct_chars, intent.correct_chars)
        && column_equals(stored.incorrect_chars, intent.incorrect_chars)
        && column_equals(stored.backspaces, intent.backspaces)
        && json_text_matches(stored.char_stats.as_str(), &intent.char_stats)
        && json_text_matches(stored.heatmap_data.as_str(), &intent.heatmap)
        && optional_json_text_matches(&stored.graph_data, &intent.graph_data)
        && (stored.is_pb == 0 || stored.is_pb == 1)
        && chars_of(stored.tags.as_str()).len() == 0
}

/// Whether a stored test is exactly the one a completion intent asks for:
/// its row agrees with the intent and its replay rows are the rows
/// projected from the intent's keystrokes for that test.
pub fn stored_test_matches_intent(
    stored: &StoredTestRow,
    intent: &IntentView,
    stored_replay: &[ReplayFrame],
    expected_replay: &[ReplayFrame],
) -> (r: bool)
    ensures
        r == (test_row_matches(*stored, *intent) && replay_rows_match(
            stored_replay@,
            expected_replay@,
            stored.id,
        )),
{
    stored_row_matches_intent(stored, intent) && replay_matches(
        stored_replay,
        expected_replay,
        stored.id,
    )
}

} // verus!

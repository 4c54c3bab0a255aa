//! Portable profile transfer: the strict validation of a profile document
//! and the import preview. Reading the database and decoding JSON happen
//! outside; fractional numbers reach this library as whether they are
//! finite, and embedded JSON values as their encoded size.

use vstd::prelude::*;

use crate::custom_texts::{text_validation_error, validate_text};
use crate::error::DbError;
use crate::streaks::ymd_day_number;
use crate::text::{
    chars_are_blank, chars_of, decimal, decimal_chars, lemma_trim_empty_iff_blank, str_equals,
    string_from_chars, trim_seq,
};

verus! {

/// Format tag of a profile document.
pub const PROFILE_FORMAT: &'static str = "racoon-typper-profile";

/// Schema version of a profile document.
pub const PROFILE_SCHEMA_VERSION: u32 = 1;

/// Largest accepted profile document, in bytes.
pub const MAX_PROFILE_BYTES: usize = 64 * 1024 * 1024;

/// Largest number of rows in one collection.
pub const MAX_PROFILE_ROWS_PER_COLLECTION: usize = 100_000;

/// Longest short text, in characters.
pub const MAX_SHORT_TEXT: usize = 256;

/// Longest timestamp, in characters.
pub const MAX_TIMESTAMP: usize = 64;

/// Largest encoded JSON value, in bytes.
pub const MAX_JSON_BYTES: usize = 1024 * 1024;

/// An embedded JSON value as the validation sees it: the length of its
/// compact encoding, or the encoder's error message.
#[derive(Debug, Clone)]
pub enum JsonEncoding {
    Encoded(usize),
    Failed(String),
}

/// A fractional number as the validation sees it: whether it is finite.
#[derive(Debug, Clone, Copy)]
pub struct Finite(pub bool);

/// One exported test result.
#[derive(Debug, Clone)]
pub struct TestExportV1 {
    pub session_id: String,
    pub created_at: String,
    pub mode_type: String,
    pub mode_config: JsonEncoding,
    pub language: String,
    pub text_length: i64,
    pub duration_ms: i64,
    pub wpm: Finite,
    pub raw_wpm: Finite,
    pub accuracy: Finite,
    pub raw_accuracy: Finite,
    pub consistency: Option<Finite>,
    pub correct_chars: i64,
    pub incorrect_chars: i64,
    pub backspaces: i64,
    pub char_stats: JsonEncoding,
    pub heatmap_data: JsonEncoding,
    pub graph_data: Option<JsonEncoding>,
    pub is_pb: bool,
    pub tags: String,
}

/// One exported personal best.
#[derive(Debug, Clone)]
pub struct PersonalBestExportV1 {
    pub mode_type: String,
    pub mode_config_hash: String,
    pub mode_config: JsonEncoding,
    pub best_wpm: Finite,
    pub best_wpm_session_id: Option<String>,
    pub best_accuracy: Finite,
    pub best_accuracy_session_id: Option<String>,
    pub best_consistency: Option<Finite>,
    pub best_consistency_session_id: Option<String>,
    pub updated_at: String,
}

/// One exported day of statistics.
#[derive(Debug, Clone)]
pub struct DailyStatExportV1 {
    pub date: String,
    pub total_tests: i64,
    pub total_time_ms: i64,
    pub total_chars: i64,
    pub best_wpm: Finite,
    pub avg_wpm: Finite,
    pub avg_accuracy: Finite,
    pub lessons_completed: i64,
    pub daily_goal_met: bool,
}

/// One exported streak.
#[derive(Debug, Clone)]
pub struct StreakExportV1 {
    pub streak_type: String,
    pub current_streak: i64,
    pub longest_streak: i64,
    pub last_date: Option<String>,
    pub started_date: Option<String>,
}

/// One exported custom text.
#[derive(Debug, Clone)]
pub struct CustomTextExportV1 {
    pub name: String,
    pub text: String,
    pub language: String,
    pub created_at: String,
    pub last_used_at: Option<String>,
    pub use_count: i64,
}

/// One exported lesson progress row.
#[derive(Debug, Clone)]
pub struct LessonProgressExportV1 {
    pub lesson_id: String,
    pub module_id: String,
    pub language: String,
    pub difficulty: String,
    pub status: String,
    pub best_wpm: Finite,
    pub best_accuracy: Finite,
    pub attempts: i64,
    pub last_attempt_at: Option<String>,
    pub completed_at: Option<String>,
}

/// The portable collections of a profile.
#[derive(Debug, Clone)]
pub struct ProfilePayloadV1 {
    pub tests: Vec<TestExportV1>,
    pub personal_bests: Vec<PersonalBestExportV1>,
    pub daily_stats: Vec<DailyStatExportV1>,
    pub streaks: Vec<StreakExportV1>,
    pub custom_texts: Vec<CustomTextExportV1>,
    pub lesson_progress: Vec<LessonProgressExportV1>,
}

/// A complete profile document.
#[derive(Debug, Clone)]
pub struct ProfileExportV1 {
    pub format: String,
    pub schema_version: u32,
    pub exported_at: String,
    pub application_version: String,
    pub profile: ProfilePayloadV1,
}

/// What an import does with rows that already exist.
#[derive(Debug, Clone, Copy, PartialEq, Eq, Structural)]
pub enum ProfileImportPolicy {
    Merge,
    Replace,
}

/// Import preview of one collection.
#[derive(Debug, Clone, Copy, PartialEq, Eq, Structural)]
pub struct CollectionImportPlan {
    pub incoming: usize,
    pub existing: usize,
    pub to_insert: usize,
}

/// Import preview of a whole profile.
#[derive(Debug, Clone, Copy, PartialEq, Eq, Structural)]
pub struct ImportPlan {
    pub policy: ProfileImportPolicy,
    pub tests: CollectionImportPlan,
    pub personal_bests: CollectionImportPlan,
    pub daily_stats: CollectionImportPlan,
    pub streaks: CollectionImportPlan,
    pub custom_texts: CollectionImportPlan,
    pub lesson_progress: CollectionImportPlan,
}

// ── Single checks ──

/// The first of two outcomes that is an error.
pub open spec fn either(a: Option<Seq<char>>, b: Option<Seq<char>>) -> Option<Seq<char>> {
    if a is Some {
        a
    } else {
        b
    }
}

/// A bounded string: non-blank unless blank is allowed, and at most `max`
/// characters.
pub open spec fn string_error(value: Seq<char>, name: Seq<char>, max: nat, allow_empty: bool) -> Option<
    Seq<char>,
> {
    if (!allow_empty && trim_seq(value).len() == 0) || value.len() > max {
        Some(name + " must be non-empty and at most "@ + decimal(max) + " characters"@)
    } else {
        None
    }
}

/// Whether chrono's RFC 3339 parser (`DateTime::parse_from_rfc3339`)
/// accepts the text.
pub uninterp spec fn rfc3339_accepts(s: Seq<char>) -> bool;

/// Calls `chrono::DateTime::parse_from_rfc3339` and reports whether it
/// succeeded. The contract only names the outcome; the RFC 3339 grammar is
/// chrono's.
#[verifier::external_body]
fn parses_as_rfc3339(s: &str) -> (b: bool)
    ensures
        b == rfc3339_accepts(s@),
{
    chrono::DateTime::parse_from_rfc3339(s).is_ok()
}

/// A timestamp: a bounded string that parses as RFC 3339.
pub open spec fn timestamp_error(value: Seq<char>, name: Seq<char>) -> Option<Seq<char>> {
    either(
        string_error(value, name, MAX_TIMESTAMP as nat, false),
        if rfc3339_accepts(value) {
            None
        } else {
            Some(name + " must be an RFC 3339 timestamp"@)
        },
    )
}

/// An optional timestamp.
pub open spec fn optional_timestamp_error(value: Option<String>, name: Seq<char>) -> Option<Seq<char>> {
    match value {
        Some(v) => timestamp_error(v@, name),
        None => None,
    }
}

/// A calendar date `YYYY-MM-DD`.
pub open spec fn date_error(value: Seq<char>, name: Seq<char>) -> Option<Seq<char>> {
    if ymd_day_number(value) is Some {
        None
    } else {
        Some(name + " must be an ISO calendar date"@)
    }
}

/// An optional calendar date.
pub open spec fn optional_date_error(value: Option<String>, name: Seq<char>) -> Option<Seq<char>> {
    match value {
        Some(v) => date_error(v@, name),
        None => None,
    }
}

/// Counters must not be negative.
pub open spec fn negative_error(negative: bool) -> Option<Seq<char>> {
    if negative {
        Some("Profile contains a negative counter"@)
    } else {
        None
    }
}

/// A fractional number must be finite.
pub open spec fn finite_error(f: Finite, name: Seq<char>) -> Option<Seq<char>> {
    if f.0 {
        None
    } else {
        Some(name + " must be finite"@)
    }
}

/// An optional fractional number must be finite when present.
pub open spec fn optional_finite_error(f: Option<Finite>, name: Seq<char>) -> Option<Seq<char>> {
    match f {
        Some(x) => finite_error(x, name),
        None => None,
    }
}

/// An embedded JSON value must encode, within `MAX_JSON_BYTES`.
pub open spec fn json_error(j: JsonEncoding, name: Seq<char>) -> Option<Seq<char>> {
    match j {
        JsonEncoding::Failed(e) => Some(name + " cannot be encoded: "@ + e@),
        JsonEncoding::Encoded(n) => if n > MAX_JSON_BYTES {
            Some(name + " exceeds the 1048576-byte limit"@)
        } else {
            None
        },
    }
}

fn validation_of(m: Vec<char>) -> (e: DbError)
    ensures
        e matches DbError::Validation(s) && s@ == m@,
{
    DbError::Validation(string_from_chars(m.as_slice()))
}

fn concat2(a: &str, b: &str) -> (r: Vec<char>)
    ensures
        r@ == a@ + b@,
{
    let mut m = chars_of(a);
    let mut x = chars_of(b);
    m.append(&mut x);
    m
}

fn concat3(a: &str, b: &str, c: &str) -> (r: Vec<char>)
    ensures
        r@ == a@ + b@ + c@,
{
    let mut m = chars_of(a);
    let mut x = chars_of(b);
    m.append(&mut x);
    let mut y = chars_of(c);
    m.append(&mut y);
    m
}

/// Checks a bounded string.
fn check_string(value: &str, name: &str, max: usize, allow_empty: bool) -> (r: Result<(), DbError>)
    ensures
        r is Ok == (string_error(value@, name@, max as nat, allow_empty) is None),
        r matches Err(e) ==> e matches DbError::Validation(m) && string_error(
            value@,
            name@,
            max as nat,
            allow_empty,
        ) == Some(m@),
{
    let cs = chars_of(value);
    proof {
        lemma_trim_empty_iff_blank(value@);
    }
    if (!allow_empty && chars_are_blank(cs.as_slice())) || cs.len() > max {
        let mut m = chars_of(name);
        let mut a = chars_of(" must be non-empty and at most ");
        m.append(&mut a);
        let mut d = decimal_chars(max as u64);
        m.append(&mut d);
        let mut b = chars_of(" characters");
        m.append(&mut b);
        return Err(validation_of(m));
    }
    Ok(())
}

/// Checks a timestamp.
fn check_timestamp(value: &str, name: &str) -> (r: Result<(), DbError>)
    ensures
        r is Ok == (timestamp_error(value@, name@) is None),
        r matches Err(e) ==> e matches DbError::Validation(m) && timestamp_error(value@, name@)
            == Some(m@),
{
    match check_string(value, name, MAX_TIMESTAMP, false) {
        Err(e) => {
            return Err(e);
        },
        Ok(()) => {},
    }
    if !parses_as_rfc3339(value) {
        return Err(validation_of(concat2(name, " must be an RFC 3339 timestamp")));
    }
    Ok(())
}

/// Checks an optional timestamp.
fn check_optional_timestamp(value: &Option<String>, name: &str) -> (r: Result<(), DbError>)
    ensures
        r is Ok == (optional_timestamp_error(*value, name@) is None),
        r matches Err(e) ==> e matches DbError::Validation(m) && optional_timestamp_error(
            *value,
            name@,
        ) == Some(m@),
{
    match value {
        Some(v) => check_timestamp(v.as_str(), name),
        None => Ok(()),
    }
}

/// Checks a calendar date.
fn check_date(value: &str, name: &str) -> (r: Result<(), DbError>)
    ensures
        r is Ok == (date_error(value@, name@) is None),
        r matches Err(e) ==> e matches DbError::Validation(m) && date_error(value@, name@) == Some(
            m@,
        ),
{
    if crate::streaks::parse_ymd_day_number(value).is_none() {
        return Err(validation_of(concat2(name, " must be an ISO calendar date")));
    }
    Ok(())
}

/// Checks an optional calendar date.
fn check_optional_date(value: &Option<String>, name: &str) -> (r: Result<(), DbError>)
    ensures
        r is Ok == (optional_date_error(*value, name@) is None),
        r matches Err(e) ==> e matches DbError::Validation(m) && optional_date_error(*value, name@)
            == Some(m@),
{
    match value {
        Some(v) => check_date(v.as_str(), name),
        None => Ok(()),
    }
}

/// Checks that no counter is negative.
fn check_non_negative(negative: bool) -> (r: Result<(), DbError>)
    ensures
        r is Ok == (negative_error(negative) is None),
        r matches Err(e) ==> e matches DbError::Validation(m) && negative_error(negative) == Some(m@),
{
    if negative {
        return Err(DbError::Validation("Profile contains a negative counter".to_owned()));
    }
    Ok(())
}

/// Checks that a number is finite.
fn check_finite(f: Finite, name: &str) -> (r: Result<(), DbError>)
    ensures
        r is Ok == (finite_error(f, name@) is None),
        r matches Err(e) ==> e matches DbError::Validation(m) && finite_error(f, name@) == Some(m@),
{
    if !f.0 {
        return Err(validation_of(concat2(name, " must be finite")));
    }
    Ok(())
}

/// Checks that an optional number is finite.
fn check_optional_finite(f: Option<Finite>, name: &str) -> (r: Result<(), DbError>)
    ensures
        r is Ok == (optional_finite_error(f, name@) is None),
        r matches Err(e) ==> e matches DbError::Validation(m) && optional_finite_error(f, name@)
            == Some(m@),
{
    match f {
        Some(x) => check_finite(x, name),
        None => Ok(()),
    }
}

/// Checks an embedded JSON value.
fn check_json(j: &JsonEncoding, name: &str) -> (r: Result<(), DbError>)
    ensures
        r is Ok == (json_error(*j, name@) is None),
        r matches Err(e) ==> e matches DbError::Validation(m) && json_error(*j, name@) == Some(m@),
{
    match j {
        JsonEncoding::Failed(error) => {
            let m = concat3(name, " cannot be encoded: ", error.as_str());
            assert(m@ == name@ + " cannot be encoded: "@ + error@);
            Err(validation_of(m))
        },
        JsonEncoding::Encoded(n) => if *n > MAX_JSON_BYTES {
            Err(validation_of(concat2(name, " exceeds the 1048576-byte limit")))
        } else {
            Ok(())
        },
    }
}

// ── Collections ──

/// The session ids of test rows.
pub open spec fn session_ids(rows: Seq<TestExportV1>) -> Seq<Seq<char>> {
    rows.map_values(|r: TestExportV1| r.session_id@)
}

/// Whether any of the counters is negative.
pub open spec fn test_negative(r: TestExportV1) -> bool {
    r.text_length < 0 || r.duration_ms < 0 || r.correct_chars < 0 || r.incorrect_chars < 0
        || r.backspaces < 0
}

/// The first problem of test row `i`, given the rows before it.
pub open spec fn test_row_error(rows: Seq<TestExportV1>, i: int) -> Option<Seq<char>> {
    let r = rows[i];
    either(
        string_error(r.session_id@, "test.session_id"@, 128, false),
        either(
            if session_ids(rows.take(i)).contains(r.session_id@) {
                Some("Profile contains duplicate test session IDs"@)
            } else {
                None
            },
            either(
                timestamp_error(r.created_at@, "test.created_at"@),
                either(
                    string_error(r.mode_type@, "test.mode_type"@, MAX_SHORT_TEXT as nat, false),
                    either(
                        string_error(r.language@, "test.language"@, 64, false),
                        either(
                            json_error(r.mode_config, "test.mode_config"@),
                            either(
                                json_error(r.char_stats, "test.char_stats"@),
                                either(
                                    json_error(r.heatmap_data, "test.heatmap_data"@),
                                    either(
                                        match r.graph_data {
                                            Some(g) => json_error(g, "test.graph_data"@),
                                            None => None,
                                        },
                                        either(
                                            string_error(r.tags@, "test.tags"@, 4096, true),
                                            either(
                                                negative_error(test_negative(r)),
                                                either(
                                                    finite_error(r.wpm, "test.wpm"@),
                                                    either(
                                                        finite_error(r.raw_wpm, "test.raw_wpm"@),
                                                        either(
                                                            finite_error(r.accuracy, "test.accuracy"@),
                                                            either(
                                                                finite_error(
                                                                    r.raw_accuracy,
                                                                    "test.raw_accuracy"@,
                                                                ),
                                                                optional_finite_error(
                                                                    r.consistency,
                                                                    "test.consistency"@,
                                                                ),
                                                            ),
                                                        ),
                                                    ),
                                                ),
                                            ),
                                        ),
                                    ),
                                ),
                            ),
                        ),
                    ),
                ),
            ),
        ),
    )
}

/// The first problem among the first `n` test rows.
pub open spec fn tests_error(rows: Seq<TestExportV1>, n: int) -> Option<Seq<char>>
    decreases n,
{
    if n <= 0 {
        None
    } else {
        either(tests_error(rows, n - 1), test_row_error(rows, n - 1))
    }
}

fn check_test_rows(rows: &Vec<TestExportV1>, seen: &mut vstd::hash_set::StringHashSet) -> (r: Result<
    (),
    DbError,
>)
    requires
        old(seen)@ == Set::<Seq<char>>::empty(),
    ensures
        r is Ok == (tests_error(rows@, rows@.len() as int) is None),
        r matches Err(e) ==> e matches DbError::Validation(m) && tests_error(
            rows@,
            rows@.len() as int,
        ) == Some(m@),
        r is Ok ==> forall|k: Seq<char>|
            final(seen)@.contains(k) <==> session_ids(rows@).contains(k),
{
    assert(session_ids(rows@.take(0)) =~= Seq::<Seq<char>>::empty());
    let mut i: usize = 0;
    while i < rows.len()
        invariant
            i <= rows.len(),
            tests_error(rows@, i as int) is None,
            forall|k: Seq<char>| seen@.contains(k) <==> session_ids(rows@.take(i as int)).contains(k),
        decreases rows.len() - i,
    {
        let row = &rows[i];
        let ghost prefix = session_ids(rows@.take(i as int));
        let ghost next = session_ids(rows@.take(i + 1));
        assert(next =~= prefix.push(row.session_id@));
        proof {
            assert forall|k: Seq<char>| next.contains(k) <==> (prefix.contains(k) || k == row.session_id@) by {
                if next.contains(k) {
                    let j = choose|j: int| 0 <= j < next.len() && next[j] == k;
                    if j < prefix.len() {
                        assert(prefix[j] == k);
                    }
                }
                if prefix.contains(k) {
                    let j = choose|j: int| 0 <= j < prefix.len() && prefix[j] == k;
                    assert(next[j] == k);
                }
                if k == row.session_id@ {
                    assert(next[prefix.len() as int] == k);
                }
            }
        }
        let checked = check_one_test_row(rows, i, seen);
        match checked {
            Err(e) => {
                proof {
                    lemma_tests_error_prefix(rows@, i as int + 1);
                }
                return Err(e);
            },
            Ok(()) => {},
        }
        i = i + 1;
    }
    assert(rows@.take(rows.len() as int) =~= rows@);
    Ok(())
}

proof fn lemma_tests_error_prefix(rows: Seq<TestExportV1>, k: int)
    requires
        0 <= k <= rows.len(),
        tests_error(rows, k) is Some,
    ensures
        tests_error(rows, rows.len() as int) == tests_error(rows, k),
    decreases rows.len() - k,
{
    if k < rows.len() {
        lemma_tests_error_prefix(rows, k + 1);
    }
}

#[verifier::rlimit(40)]
fn check_one_test_row(
    rows: &Vec<TestExportV1>,
    i: usize,
    seen: &mut vstd::hash_set::StringHashSet,
) -> (r: Result<(), DbError>)
    requires
        i < rows.len(),
        forall|k: Seq<char>|
            old(seen)@.contains(k) <==> session_ids(rows@.take(i as int)).contains(k),
    ensures
        r is Ok == (test_row_error(rows@, i as int) is None),
        r matches Err(e) ==> e matches DbError::Validation(m) && test_row_error(rows@, i as int)
            == Some(m@),
        r is Ok ==> final(seen)@ == old(seen)@.insert(rows@[i as int].session_id@),
{
    let row = &rows[i];
    match check_string(row.session_id.as_str(), "test.session_id", 128, false) {
        Err(e) => {
            return Err(e);
        },
        Ok(()) => {},
    }
    if !seen.insert(row.session_id.clone()) {
        return Err(DbError::Validation("Profile contains duplicate test session IDs".to_owned()));
    }
    match check_timestamp(row.created_at.as_str(), "test.created_at") {
        Err(e) => {
            return Err(e);
        },
        Ok(()) => {},
    }
    match check_string(row.mode_type.as_str(), "test.mode_type", MAX_SHORT_TEXT, false) {
        Err(e) => {
            return Err(e);
        },
        Ok(()) => {},
    }
    match check_string(row.language.as_str(), "test.language", 64, false) {
        Err(e) => {
            return Err(e);
        },
        Ok(()) => {},
    }
    match check_json(&row.mode_config, "test.mode_config") {
        Err(e) => {
            return Err(e);
        },
        Ok(()) => {},
    }
    match check_json(&row.char_stats, "test.char_stats") {
        Err(e) => {
            return Err(e);
        },
        Ok(()) => {},
    }
    match check_json(&row.heatmap_data, "test.heatmap_data") {
        Err(e) => {
            return Err(e);
        },
        Ok(()) => {},
    }
    match &row.graph_data {
        Some(g) => match check_json(g, "test.graph_data") {
            Err(e) => {
                return Err(e);
            },
            Ok(()) => {},
        },
        None => {},
    }
    match check_string(row.tags.as_str(), "test.tags", 4096, true) {
        Err(e) => {
            return Err(e);
        },
        Ok(()) => {},
    }
    let negative = row.text_length < 0 || row.duration_ms < 0 || row.correct_chars < 0
        || row.incorrect_chars < 0 || row.backspaces < 0;
    match check_non_negative(negative) {
        Err(e) => {
            return Err(e);
        },
        Ok(()) => {},
    }
    match check_finite(row.wpm, "test.wpm") {
        Err(e) => {
            return Err(e);
        },
        Ok(()) => {},
    }
    match check_finite(row.raw_wpm, "test.raw_wpm") {
        Err(e) => {
            return Err(e);
        },
        Ok(()) => {},
    }
    match check_finite(row.accuracy, "test.accuracy") {
        Err(e) => {
            return Err(e);
        },
        Ok(()) => {},
    }
    match check_finite(row.raw_accuracy, "test.raw_accuracy") {
        Err(e) => {
            return Err(e);
        },
        Ok(()) => {},
    }
    check_optional_finite(row.consistency, "test.consistency")
}

/// Pushing `x` adds exactly `x` to what a sequence contains.
proof fn lemma_push_contains(prefix: Seq<Seq<char>>, x: Seq<char>)
    ensures
        forall|k: Seq<char>| prefix.push(x).contains(k) <==> (prefix.contains(k) || k == x),
{
    let next = prefix.push(x);
    assert forall|k: Seq<char>| next.contains(k) <==> (prefix.contains(k) || k == x) by {
        if next.contains(k) {
            let j = choose|j: int| 0 <= j < next.len() && next[j] == k;
            if j < prefix.len() {
                assert(prefix[j] == k);
            }
        }
        if prefix.contains(k) {
            let j = choose|j: int| 0 <= j < prefix.len() && prefix[j] == k;
            assert(next[j] == k);
        }
        if k == x {
            assert(next[prefix.len() as int] == k);
        }
    }
}

/// Whether a row before `i` has the same identity as row `i`.
pub open spec fn best_identity_seen(rows: Seq<PersonalBestExportV1>, i: int) -> bool {
    exists|j: int| 0 <= j < i && #[trigger] rows[j].mode_type@ == rows[i].mode_type@ && rows[j].mode_type@ == rows[i].mode_type@ && rows[j].mode_config_hash@ == rows[i].mode_config_hash@
}

fn best_identity_seen_exec(rows: &Vec<PersonalBestExportV1>, i: usize) -> (b: bool)
    requires
        i < rows.len(),
    ensures
        b == best_identity_seen(rows@, i as int),
{
    let mut j: usize = 0;
    while j < i
        invariant
            j <= i < rows.len(),
            forall|k: int| 0 <= k < j ==> !(#[trigger] rows@[k].mode_type@ == rows@[i as int].mode_type@ && rows@[k].mode_type@ == rows@[i as int].mode_type@ && rows@[k].mode_config_hash@ == rows@[i as int].mode_config_hash@),
        decreases i - j,
    {
        if rows[j].mode_type == rows[i].mode_type && rows[j].mode_config_hash == rows[i].mode_config_hash {
            return true;
        }
        j = j + 1;
    }
    false
}

/// The first problem of best row `i`, given the rows before it.
pub open spec fn best_row_error(rows: Seq<PersonalBestExportV1>, i: int, sessions: Seq<Seq<char>>) -> Option<Seq<char>> {
    let r = rows[i];
    either(
        string_error(r.mode_type@, "personal_best.mode_type"@, MAX_SHORT_TEXT as nat, false),
        either(
        string_error(r.mode_config_hash@, "personal_best.mode_config_hash"@, MAX_SHORT_TEXT as nat, false),
        either(
        if best_identity_seen(rows, i) { Some("Profile contains duplicate personal best identities"@) } else { None },
        either(
        json_error(r.mode_config, "personal_best.mode_config"@),
        either(
        timestamp_error(r.updated_at@, "personal_best.updated_at"@),
        either(
        finite_error(r.best_wpm, "personal_best.best_wpm"@),
        either(
        finite_error(r.best_accuracy, "personal_best.best_accuracy"@),
        either(
        optional_finite_error(r.best_consistency, "personal_best.best_consistency"@),
        if (r.best_wpm_session_id matches Some(s) && !sessions.contains(s@)) || (r.best_accuracy_session_id matches Some(s) && !sessions.contains(s@)) || (r.best_consistency_session_id matches Some(s) && !sessions.contains(s@)) { Some("Personal-best test reference is not present in the profile"@) } else { None }
    )
    )
    )
    )
    )
    )
    )
    )
}

/// The first problem among the first `n` best rows.
pub open spec fn best_error(rows: Seq<PersonalBestExportV1>, n: int, sessions: Seq<Seq<char>>) -> Option<Seq<char>>
    decreases n,
{
    if n <= 0 {
        None
    } else {
        either(best_error(rows, n - 1, sessions), best_row_error(rows, n - 1, sessions))
    }
}

proof fn lemma_best_error_prefix(rows: Seq<PersonalBestExportV1>, k: int, sessions: Seq<Seq<char>>)
    requires
        0 <= k <= rows.len(),
        best_error(rows, k, sessions) is Some,
    ensures
        best_error(rows, rows.len() as int, sessions) == best_error(rows, k, sessions),
    decreases rows.len() - k,
{
    if k < rows.len() {
        lemma_best_error_prefix(rows, k + 1, sessions);
    }
}

#[verifier::rlimit(40)]
fn check_one_best_row(rows: &Vec<PersonalBestExportV1>, i: usize, sessions: &vstd::hash_set::StringHashSet, Ghost(all): Ghost<Seq<Seq<char>>>) -> (r: Result<(), DbError>)
    requires
        i < rows.len(),
        forall|k: Seq<char>| sessions@.contains(k) <==> all.contains(k),
    ensures
        r is Ok == (best_row_error(rows@, i as int, all) is None),
        r matches Err(e) ==> e matches DbError::Validation(m) && best_row_error(rows@, i as int, all) == Some(m@),
{
    let row = &rows[i];
    match check_string(row.mode_type.as_str(), "personal_best.mode_type", MAX_SHORT_TEXT, false) {
        Err(e) => {
            return Err(e);
        },
        Ok(()) => {},
    }
    match check_string(row.mode_config_hash.as_str(), "personal_best.mode_config_hash", MAX_SHORT_TEXT, false) {
        Err(e) => {
            return Err(e);
        },
        Ok(()) => {},
    }
    if best_identity_seen_exec(rows, i) {
        return Err(DbError::Validation("Profile contains duplicate personal best identities".to_owned()));
    }
    match check_json(&row.mode_config, "personal_best.mode_config") {
        Err(e) => {
            return Err(e);
        },
        Ok(()) => {},
    }
    match check_timestamp(row.updated_at.as_str(), "personal_best.updated_at") {
        Err(e) => {
            return Err(e);
        },
        Ok(()) => {},
    }
    match check_finite(row.best_wpm, "personal_best.best_wpm") {
        Err(e) => {
            return Err(e);
        },
        Ok(()) => {},
    }
    match check_finite(row.best_accuracy, "personal_best.best_accuracy") {
        Err(e) => {
            return Err(e);
        },
        Ok(()) => {},
    }
    match check_optional_finite(row.best_consistency, "personal_best.best_consistency") {
        Err(e) => {
            return Err(e);
        },
        Ok(()) => {},
    }
    match &row.best_wpm_session_id {
        Some(s) => if !sessions.contains(s.as_str()) {
            return Err(DbError::Validation("Personal-best test reference is not present in the profile".to_owned()));
        },
        None => {},
    }
    match &row.best_accuracy_session_id {
        Some(s) => if !sessions.contains(s.as_str()) {
            return Err(DbError::Validation("Personal-best test reference is not present in the profile".to_owned()));
        },
        None => {},
    }
    match &row.best_consistency_session_id {
        Some(s) => if !sessions.contains(s.as_str()) {
            return Err(DbError::Validation("Personal-best test reference is not present in the profile".to_owned()));
        },
        None => {},
    }
    Ok(())
}

fn check_best_rows(rows: &Vec<PersonalBestExportV1>, sessions: &vstd::hash_set::StringHashSet, Ghost(all): Ghost<Seq<Seq<char>>>) -> (r: Result<(), DbError>)
    requires
        forall|k: Seq<char>| sessions@.contains(k) <==> all.contains(k),
    ensures
        r is Ok == (best_error(rows@, rows@.len() as int, all) is None),
        r matches Err(e) ==> e matches DbError::Validation(m) && best_error(rows@, rows@.len() as int, all) == Some(m@),
{
    let mut i: usize = 0;
    while i < rows.len()
        invariant
            i <= rows.len(),
            best_error(rows@, i as int, all) is None,
            forall|k: Seq<char>| sessions@.contains(k) <==> all.contains(k),
        decreases rows.len() - i,
    {
        match check_one_best_row(rows, i, sessions, Ghost(all)) {
            Err(e) => {
                proof {
                    lemma_best_error_prefix(rows@, i as int + 1, all);
                }
                return Err(e);
            },
            Ok(()) => {},
        }
        i = i + 1;
    }
    Ok(())
}

/// The `date` of each row.
pub open spec fn daily_dates(rows: Seq<DailyStatExportV1>) -> Seq<Seq<char>> {
    rows.map_values(|r: DailyStatExportV1| r.date@)
}

/// The first problem of daily row `i`, given the rows before it.
pub open spec fn daily_row_error(rows: Seq<DailyStatExportV1>, i: int) -> Option<Seq<char>> {
    let r = rows[i];
    either(
        date_error(r.date@, "daily_stat.date"@),
        either(
        if daily_dates(rows.take(i)).contains(r.date@) { Some("Profile contains duplicate daily-stat dates"@) } else { None },
        either(
        negative_error(r.total_tests < 0 || r.total_time_ms < 0 || r.total_chars < 0 || r.lessons_completed < 0),
        either(
        finite_error(r.best_wpm, "daily_stat.best_wpm"@),
        either(
        finite_error(r.avg_wpm, "daily_stat.avg_wpm"@),
        finite_error(r.avg_accuracy, "daily_stat.avg_accuracy"@)
    )
    )
    )
    )
    )
}

/// The first problem among the first `n` daily rows.
pub open spec fn daily_error(rows: Seq<DailyStatExportV1>, n: int) -> Option<Seq<char>>
    decreases n,
{
    if n <= 0 {
        None
    } else {
        either(daily_error(rows, n - 1), daily_row_error(rows, n - 1))
    }
}

proof fn lemma_daily_error_prefix(rows: Seq<DailyStatExportV1>, k: int)
    requires
        0 <= k <= rows.len(),
        daily_error(rows, k) is Some,
    ensures
        daily_error(rows, rows.len() as int) == daily_error(rows, k),
    decreases rows.len() - k,
{
    if k < rows.len() {
        lemma_daily_error_prefix(rows, k + 1);
    }
}

#[verifier::rlimit(40)]
fn check_one_daily_row(rows: &Vec<DailyStatExportV1>, i: usize, seen: &mut vstd::hash_set::StringHashSet) -> (r: Result<(), DbError>)
    requires
        i < rows.len(),
        forall|k: Seq<char>| old(seen)@.contains(k) <==> daily_dates(rows@.take(i as int)).contains(k),
    ensures
        r is Ok == (daily_row_error(rows@, i as int) is None),
        r matches Err(e) ==> e matches DbError::Validation(m) && daily_row_error(rows@, i as int) == Some(m@),
        r is Ok ==> final(seen)@ == old(seen)@.insert(rows@[i as int].date@),
{
    let row = &rows[i];
    match check_date(row.date.as_str(), "daily_stat.date") {
        Err(e) => {
            return Err(e);
        },
        Ok(()) => {},
    }
    if !seen.insert(row.date.clone()) {
        return Err(DbError::Validation("Profile contains duplicate daily-stat dates".to_owned()));
    }
    match check_non_negative(row.total_tests < 0 || row.total_time_ms < 0 || row.total_chars < 0 || row.lessons_completed < 0) {
        Err(e) => {
            return Err(e);
        },
        Ok(()) => {},
    }
    match check_finite(row.best_wpm, "daily_stat.best_wpm") {
        Err(e) => {
            return Err(e);
        },
        Ok(()) => {},
    }
    match check_finite(row.avg_wpm, "daily_stat.avg_wpm") {
        Err(e) => {
            return Err(e);
        },
        Ok(()) => {},
    }
    match check_finite(row.avg_accuracy, "daily_stat.avg_accuracy") {
        Err(e) => {
            return Err(e);
        },
        Ok(()) => {},
    }
    Ok(())
}

fn check_daily_rows(rows: &Vec<DailyStatExportV1>) -> (r: Result<(), DbError>)
    requires
        true,
    ensures
        r is Ok == (daily_error(rows@, rows@.len() as int) is None),
        r matches Err(e) ==> e matches DbError::Validation(m) && daily_error(rows@, rows@.len() as int) == Some(m@),
{
    let mut seen = vstd::hash_set::StringHashSet::new();
    assert(daily_dates(rows@.take(0)) =~= Seq::<Seq<char>>::empty());
    let mut i: usize = 0;
    while i < rows.len()
        invariant
            i <= rows.len(),
            daily_error(rows@, i as int) is None,
            forall|k: Seq<char>| seen@.contains(k) <==> daily_dates(rows@.take(i as int)).contains(k),
        decreases rows.len() - i,
    {
        let ghost prefix = daily_dates(rows@.take(i as int));
        let ghost next = daily_dates(rows@.take(i + 1));
        assert(next =~= prefix.push(rows@[i as int].date@));
        proof {
            lemma_push_contains(prefix, rows@[i as int].date@);
        }
        match check_one_daily_row(rows, i, &mut seen) {
            Err(e) => {
                proof {
                    lemma_daily_error_prefix(rows@, i as int + 1);
                }
                return Err(e);
            },
            Ok(()) => {},
        }
        i = i + 1;
    }
    Ok(())
}

/// The `streak_type` of each row.
pub open spec fn streak_types(rows: Seq<StreakExportV1>) -> Seq<Seq<char>> {
    rows.map_values(|r: StreakExportV1| r.streak_type@)
}

/// The first problem of streak row `i`, given the rows before it.
pub open spec fn streak_row_error(rows: Seq<StreakExportV1>, i: int) -> Option<Seq<char>> {
    let r = rows[i];
    either(
        string_error(r.streak_type@, "streak.type"@, MAX_SHORT_TEXT as nat, false),
        either(
        if streak_types(rows.take(i)).contains(r.streak_type@) { Some("Profile contains duplicate streak types"@) } else { None },
        either(
        negative_error(r.current_streak < 0 || r.longest_streak < 0),
        either(
        optional_date_error(r.last_date, "streak.last_date"@),
        optional_date_error(r.started_date, "streak.started_date"@)
    )
    )
    )
    )
}

/// The first problem among the first `n` streak rows.
pub open spec fn streak_error(rows: Seq<StreakExportV1>, n: int) -> Option<Seq<char>>
    decreases n,
{
    if n <= 0 {
        None
    } else {
        either(streak_error(rows, n - 1), streak_row_error(rows, n - 1))
    }
}

proof fn lemma_streak_error_prefix(rows: Seq<StreakExportV1>, k: int)
    requires
        0 <= k <= rows.len(),
        streak_error(rows, k) is Some,
    ensures
        streak_error(rows, rows.len() as int) == streak_error(rows, k),
    decreases rows.len() - k,
{
    if k < rows.len() {
        lemma_streak_error_prefix(rows, k + 1);
    }
}

#[verifier::rlimit(40)]
fn check_one_streak_row(rows: &Vec<StreakExportV1>, i: usize, seen: &mut vstd::hash_set::StringHashSet) -> (r: Result<(), DbError>)
    requires
        i < rows.len(),
        forall|k: Seq<char>| old(seen)@.contains(k) <==> streak_types(rows@.take(i as int)).contains(k),
    ensures
        r is Ok == (streak_row_error(rows@, i as int) is None),
        r matches Err(e) ==> e matches DbError::Validation(m) && streak_row_error(rows@, i as int) == Some(m@),
        r is Ok ==> final(seen)@ == old(seen)@.insert(rows@[i as int].streak_type@),
{
    let row = &rows[i];
    match check_string(row.streak_type.as_str(), "streak.type", MAX_SHORT_TEXT, false) {
        Err(e) => {
            return Err(e);
        },
        Ok(()) => {},
    }
    if !seen.insert(row.streak_type.clone()) {
        return Err(DbError::Validation("Profile contains duplicate streak types".to_owned()));
    }
    match check_non_negative(row.current_streak < 0 || row.longest_streak < 0) {
        Err(e) => {
            return Err(e);
        },
        Ok(()) => {},
    }
    match check_optional_date(&row.last_date, "streak.last_date") {
        Err(e) => {
            return Err(e);
        },
        Ok(()) => {},
    }
    match check_optional_date(&row.started_date, "streak.started_date") {
        Err(e) => {
            return Err(e);
        },
        Ok(()) => {},
    }
    Ok(())
}

fn check_streak_rows(rows: &Vec<StreakExportV1>) -> (r: Result<(), DbError>)
    requires
        true,
    ensures
        r is Ok == (streak_error(rows@, rows@.len() as int) is None),
        r matches Err(e) ==> e matches DbError::Validation(m) && streak_error(rows@, rows@.len() as int) == Some(m@),
{
    let mut seen = vstd::hash_set::StringHashSet::new();
    assert(streak_types(rows@.take(0)) =~= Seq::<Seq<char>>::empty());
    let mut i: usize = 0;
    while i < rows.len()
        invariant
            i <= rows.len(),
            streak_error(rows@, i as int) is None,
            forall|k: Seq<char>| seen@.contains(k) <==> streak_types(rows@.take(i as int)).contains(k),
        decreases rows.len() - i,
    {
        let ghost prefix = streak_types(rows@.take(i as int));
        let ghost next = streak_types(rows@.take(i + 1));
        assert(next =~= prefix.push(rows@[i as int].streak_type@));
        proof {
            lemma_push_contains(prefix, rows@[i as int].streak_type@);
        }
        match check_one_streak_row(rows, i, &mut seen) {
            Err(e) => {
                proof {
                    lemma_streak_error_prefix(rows@, i as int + 1);
                }
                return Err(e);
            },
            Ok(()) => {},
        }
        i = i + 1;
    }
    Ok(())
}

/// Whether a row before `i` has the same identity as row `i`.
pub open spec fn text_identity_seen(rows: Seq<CustomTextExportV1>, i: int) -> bool {
    exists|j: int| 0 <= j < i && #[trigger] rows[j].name@ == rows[i].name@ && rows[j].name@ == rows[i].name@ && rows[j].text@ == rows[i].text@ && rows[j].language@ == rows[i].language@
}

fn text_identity_seen_exec(rows: &Vec<CustomTextExportV1>, i: usize) -> (b: bool)
    requires
        i < rows.len(),
    ensures
        b == text_identity_seen(rows@, i as int),
{
    let mut j: usize = 0;
    while j < i
        invariant
            j <= i < rows.len(),
            forall|k: int| 0 <= k < j ==> !(#[trigger] rows@[k].name@ == rows@[i as int].name@ && rows@[k].name@ == rows@[i as int].name@ && rows@[k].text@ == rows@[i as int].text@ && rows@[k].language@ == rows@[i as int].language@),
        decreases i - j,
    {
        if rows[j].name == rows[i].name && rows[j].text == rows[i].text && rows[j].language == rows[i].language {
            return true;
        }
        j = j + 1;
    }
    false
}

/// The first problem of text row `i`, given the rows before it.
pub open spec fn text_row_error(rows: Seq<CustomTextExportV1>, i: int) -> Option<Seq<char>> {
    let r = rows[i];
    either(
        string_error(r.language@, "custom_text.language"@, 32, false),
        either(
        text_validation_error(r.name@, r.text@),
        either(
        timestamp_error(r.created_at@, "custom_text.created_at"@),
        either(
        optional_timestamp_error(r.last_used_at, "custom_text.last_used_at"@),
        either(
        negative_error(r.use_count < 0),
        if text_identity_seen(rows, i) { Some("Profile contains duplicate custom-text identities"@) } else { None }
    )
    )
    )
    )
    )
}

/// The first problem among the first `n` text rows.
pub open spec fn text_error(rows: Seq<CustomTextExportV1>, n: int) -> Option<Seq<char>>
    decreases n,
{
    if n <= 0 {
        None
    } else {
        either(text_error(rows, n - 1), text_row_error(rows, n - 1))
    }
}

proof fn lemma_text_error_prefix(rows: Seq<CustomTextExportV1>, k: int)
    requires
        0 <= k <= rows.len(),
        text_error(rows, k) is Some,
    ensures
        text_error(rows, rows.len() as int) == text_error(rows, k),
    decreases rows.len() - k,
{
    if k < rows.len() {
        lemma_text_error_prefix(rows, k + 1);
    }
}

#[verifier::rlimit(40)]
fn check_one_text_row(rows: &Vec<CustomTextExportV1>, i: usize) -> (r: Result<(), DbError>)
    requires
        i < rows.len(),
    ensures
        r is Ok == (text_row_error(rows@, i as int) is None),
        r matches Err(e) ==> e matches DbError::Validation(m) && text_row_error(rows@, i as int) == Some(m@),
{
    let row = &rows[i];
    match check_string(row.language.as_str(), "custom_text.language", 32, false) {
        Err(e) => {
            return Err(e);
        },
        Ok(()) => {},
    }
    match validate_text(row.name.as_str(), row.text.as_str()) {
        Err(message) => {
            return Err(DbError::Validation(message));
        },
        Ok(()) => {},
    }
    match check_timestamp(row.created_at.as_str(), "custom_text.created_at") {
        Err(e) => {
            return Err(e);
        },
        Ok(()) => {},
    }
    match check_optional_timestamp(&row.last_used_at, "custom_text.last_used_at") {
        Err(e) => {
            return Err(e);
        },
        Ok(()) => {},
    }
    match check_non_negative(row.use_count < 0) {
        Err(e) => {
            return Err(e);
        },
        Ok(()) => {},
    }
    if text_identity_seen_exec(rows, i) {
        return Err(DbError::Validation("Profile contains duplicate custom-text identities".to_owned()));
    }
    Ok(())
}

fn check_text_rows(rows: &Vec<CustomTextExportV1>) -> (r: Result<(), DbError>)
    requires
        true,
    ensures
        r is Ok == (text_error(rows@, rows@.len() as int) is None),
        r matches Err(e) ==> e matches DbError::Validation(m) && text_error(rows@, rows@.len() as int) == Some(m@),
{
    let mut i: usize = 0;
    while i < rows.len()
        invariant
            i <= rows.len(),
            text_error(rows@, i as int) is None,
        decreases rows.len() - i,
    {
        match check_one_text_row(rows, i) {
            Err(e) => {
                proof {
                    lemma_text_error_prefix(rows@, i as int + 1);
                }
                return Err(e);
            },
            Ok(()) => {},
        }
        i = i + 1;
    }
    Ok(())
}

/// The `lesson_id` of each row.
pub open spec fn lesson_ids(rows: Seq<LessonProgressExportV1>) -> Seq<Seq<char>> {
    rows.map_values(|r: LessonProgressExportV1| r.lesson_id@)
}

/// The first problem of lesson row `i`, given the rows before it.
pub open spec fn lesson_row_error(rows: Seq<LessonProgressExportV1>, i: int) -> Option<Seq<char>> {
    let r = rows[i];
    either(
        string_error(r.lesson_id@, "lesson.lesson_id"@, MAX_SHORT_TEXT as nat, false),
        either(
        if lesson_ids(rows.take(i)).contains(r.lesson_id@) { Some("Profile contains duplicate lesson IDs"@) } else { None },
        either(
        string_error(r.module_id@, "lesson.module_id"@, MAX_SHORT_TEXT as nat, false),
        either(
        string_error(r.language@, "lesson.language"@, 64, false),
        either(
        string_error(r.difficulty@, "lesson.difficulty"@, MAX_SHORT_TEXT as nat, false),
        either(
        if r.status@ == "not_started"@ || r.status@ == "in_progress"@ || r.status@ == "completed"@ { None } else { Some("Unsupported lesson status"@) },
        either(
        negative_error(r.attempts < 0),
        either(
        finite_error(r.best_wpm, "lesson.best_wpm"@),
        either(
        finite_error(r.best_accuracy, "lesson.best_accuracy"@),
        either(
        optional_timestamp_error(r.last_attempt_at, "lesson.last_attempt_at"@),
        optional_timestamp_error(r.completed_at, "lesson.completed_at"@)
    )
    )
    )
    )
    )
    )
    )
    )
    )
    )
}

/// The first problem among the first `n` lesson rows.
pub open spec fn lesson_error(rows: Seq<LessonProgressExportV1>, n: int) -> Option<Seq<char>>
    decreases n,
{
    if n <= 0 {
        None
    } else {
        either(lesson_error(rows, n - 1), lesson_row_error(rows, n - 1))
    }
}

proof fn lemma_lesson_error_prefix(rows: Seq<LessonProgressExportV1>, k: int)
    requires
        0 <= k <= rows.len(),
        lesson_error(rows, k) is Some,
    ensures
        lesson_error(rows, rows.len() as int) == lesson_error(rows, k),
    decreases rows.len() - k,
{
    if k < rows.len() {
        lemma_lesson_error_prefix(rows, k + 1);
    }
}

#[verifier::rlimit(40)]
fn check_one_lesson_row(rows: &Vec<LessonProgressExportV1>, i: usize, seen: &mut vstd::hash_set::StringHashSet) -> (r: Result<(), DbError>)
    requires
        i < rows.len(),
        forall|k: Seq<char>| old(seen)@.contains(k) <==> lesson_ids(rows@.take(i as int)).contains(k),
    ensures
        r is Ok == (lesson_row_error(rows@, i as int) is None),
        r matches Err(e) ==> e matches DbError::Validation(m) && lesson_row_error(rows@, i as int) == Some(m@),
        r is Ok ==> final(seen)@ == old(seen)@.insert(rows@[i as int].lesson_id@),
{
    let row = &rows[i];
    match check_string(row.lesson_id.as_str(), "lesson.lesson_id", MAX_SHORT_TEXT, false) {
        Err(e) => {
            return Err(e);
        },
        Ok(()) => {},
    }
    if !seen.insert(row.lesson_id.clone()) {
        return Err(DbError::Validation("Profile contains duplicate lesson IDs".to_owned()));
    }
    match check_string(row.module_id.as_str(), "lesson.module_id", MAX_SHORT_TEXT, false) {
        Err(e) => {
            return Err(e);
        },
        Ok(()) => {},
    }
    match check_string(row.language.as_str(), "lesson.language", 64, false) {
        Err(e) => {
            return Err(e);
        },
        Ok(()) => {},
    }
    match check_string(row.difficulty.as_str(), "lesson.difficulty", MAX_SHORT_TEXT, false) {
        Err(e) => {
            return Err(e);
        },
        Ok(()) => {},
    }
    if !(str_equals(row.status.as_str(), "not_started") || str_equals(row.status.as_str(), "in_progress") || str_equals(row.status.as_str(), "completed")) {
        return Err(DbError::Validation("Unsupported lesson status".to_owned()));
    }
    match check_non_negative(row.attempts < 0) {
        Err(e) => {
            return Err(e);
        },
        Ok(()) => {},
    }
    match check_finite(row.best_wpm, "lesson.best_wpm") {
        Err(e) => {
            return Err(e);
        },
        Ok(()) => {},
    }
    match check_finite(row.best_accuracy, "lesson.best_accuracy") {
        Err(e) => {
            return Err(e);
        },
        Ok(()) => {},
    }
    match check_optional_timestamp(&row.last_attempt_at, "lesson.last_attempt_at") {
        Err(e) => {
            return Err(e);
        },
        Ok(()) => {},
    }
    match check_optional_timestamp(&row.completed_at, "lesson.completed_at") {
        Err(e) => {
            return Err(e);
        },
        Ok(()) => {},
    }
    Ok(())
}

fn check_lesson_rows(rows: &Vec<LessonProgressExportV1>) -> (r: Result<(), DbError>)
    requires
        true,
    ensures
        r is Ok == (lesson_error(rows@, rows@.len() as int) is None),
        r matches Err(e) ==> e matches DbError::Validation(m) && lesson_error(rows@, rows@.len() as int) == Some(m@),
{
    let mut seen = vstd::hash_set::StringHashSet::new();
    assert(lesson_ids(rows@.take(0)) =~= Seq::<Seq<char>>::empty());
    let mut i: usize = 0;
    while i < rows.len()
        invariant
            i <= rows.len(),
            lesson_error(rows@, i as int) is None,
            forall|k: Seq<char>| seen@.contains(k) <==> lesson_ids(rows@.take(i as int)).contains(k),
        decreases rows.len() - i,
    {
        let ghost prefix = lesson_ids(rows@.take(i as int));
        let ghost next = lesson_ids(rows@.take(i + 1));
        assert(next =~= prefix.push(rows@[i as int].lesson_id@));
        proof {
            lemma_push_contains(prefix, rows@[i as int].lesson_id@);
        }
        match check_one_lesson_row(rows, i, &mut seen) {
            Err(e) => {
                proof {
                    lemma_lesson_error_prefix(rows@, i as int + 1);
                }
                return Err(e);
            },
            Ok(()) => {},
        }
        i = i + 1;
    }
    Ok(())
}

// ── Whole documents ──

/// A collection may hold at most `MAX_PROFILE_ROWS_PER_COLLECTION` rows.
pub open spec fn count_error(n: nat, name: Seq<char>) -> Option<Seq<char>> {
    if n > MAX_PROFILE_ROWS_PER_COLLECTION {
        Some("Profile "@ + name + " collection exceeds the 100000-row limit"@)
    } else {
        None
    }
}

/// The first problem of a profile payload: a collection over the row
/// limit, then the rows of each collection in turn. Personal-best
/// references must name tests of the same profile.
pub open spec fn payload_error(p: ProfilePayloadV1) -> Option<Seq<char>> {
    either(
        count_error(p.tests@.len(), "tests"@),
        either(
            count_error(p.personal_bests@.len(), "personal_bests"@),
            either(
                count_error(p.daily_stats@.len(), "daily_stats"@),
                either(
                    count_error(p.streaks@.len(), "streaks"@),
                    either(
                        count_error(p.custom_texts@.len(), "custom_texts"@),
                        either(
                            count_error(p.lesson_progress@.len(), "lesson_progress"@),
                            either(
                                tests_error(p.tests@, p.tests@.len() as int),
                                either(
                                    best_error(
                                        p.personal_bests@,
                                        p.personal_bests@.len() as int,
                                        session_ids(p.tests@),
                                    ),
                                    either(
                                        daily_error(p.daily_stats@, p.daily_stats@.len() as int),
                                        either(
                                            streak_error(p.streaks@, p.streaks@.len() as int),
                                            either(
                                                text_error(
                                                    p.custom_texts@,
                                                    p.custom_texts@.len() as int,
                                                ),
                                                lesson_error(
                                                    p.lesson_progress@,
                                                    p.lesson_progress@.len() as int,
                                                ),
                                            ),
                                        ),
                                    ),
                                ),
                            ),
                        ),
                    ),
                ),
            ),
        ),
    )
}

fn check_count(n: usize, name: &str) -> (r: Result<(), DbError>)
    ensures
        r is Ok == (count_error(n as nat, name@) is None),
        r matches Err(e) ==> e matches DbError::Validation(m) && count_error(n as nat, name@) == Some(
            m@,
        ),
{
    if n > MAX_PROFILE_ROWS_PER_COLLECTION {
        return Err(validation_of(concat3("Profile ", name, " collection exceeds the 100000-row limit")));
    }
    Ok(())
}

/// Validates every collection of a profile payload.
pub fn validate_payload(payload: &ProfilePayloadV1) -> (r: Result<(), DbError>)
    ensures
        r is Ok == (payload_error(*payload) is None),
        r matches Err(e) ==> e matches DbError::Validation(m) && payload_error(*payload) == Some(m@),
{
    match check_count(payload.tests.len(), "tests") {
        Err(e) => {
            return Err(e);
        },
        Ok(()) => {},
    }
    match check_count(payload.personal_bests.len(), "personal_bests") {
        Err(e) => {
            return Err(e);
        },
        Ok(()) => {},
    }
    match check_count(payload.daily_stats.len(), "daily_stats") {
        Err(e) => {
            return Err(e);
        },
        Ok(()) => {},
    }
    match check_count(payload.streaks.len(), "streaks") {
        Err(e) => {
            return Err(e);
        },
        Ok(()) => {},
    }
    match check_count(payload.custom_texts.len(), "custom_texts") {
        Err(e) => {
            return Err(e);
        },
        Ok(()) => {},
    }
    match check_count(payload.lesson_progress.len(), "lesson_progress") {
        Err(e) => {
            return Err(e);
        },
        Ok(()) => {},
    }
    let mut sessions = vstd::hash_set::StringHashSet::new();
    match check_test_rows(&payload.tests, &mut sessions) {
        Err(e) => {
            return Err(e);
        },
        Ok(()) => {},
    }
    match check_best_rows(&payload.personal_bests, &sessions, Ghost(session_ids(payload.tests@))) {
        Err(e) => {
            return Err(e);
        },
        Ok(()) => {},
    }
    match check_daily_rows(&payload.daily_stats) {
        Err(e) => {
            return Err(e);
        },
        Ok(()) => {},
    }
    match check_streak_rows(&payload.streaks) {
        Err(e) => {
            return Err(e);
        },
        Ok(()) => {},
    }
    match check_text_rows(&payload.custom_texts) {
        Err(e) => {
            return Err(e);
        },
        Ok(()) => {},
    }
    check_lesson_rows(&payload.lesson_progress)
}

/// The first problem of a profile document of `len` bytes whose JSON
/// decoding gave `decoded`.
pub open spec fn export_error(len: nat, decoded: Result<ProfileExportV1, String>) -> Option<Seq<char>> {
    if len > MAX_PROFILE_BYTES {
        Some("Profile document exceeds the 67108864-byte limit"@)
    } else {
        match decoded {
            Err(e) => Some("Invalid profile document: "@ + e@),
            Ok(p) => if p.format@ != PROFILE_FORMAT@ {
                Some("Unsupported profile format"@)
            } else if p.schema_version != PROFILE_SCHEMA_VERSION {
                Some("Unsupported profile schema version: "@ + decimal(p.schema_version as nat))
            } else {
                either(
                    timestamp_error(p.exported_at@, "exported_at"@),
                    either(
                        string_error(
                            p.application_version@,
                            "application_version"@,
                            MAX_SHORT_TEXT as nat,
                            false,
                        ),
                        payload_error(p.profile),
                    ),
                )
            },
        }
    }
}

/// Validates a profile document without writing anything. `decoded` is the
/// document decoded from JSON.
pub fn parse_profile_export(document: &[u8], decoded: Result<ProfileExportV1, String>) -> (r:
    Result<ProfileExportV1, DbError>)
    ensures
        r is Ok == (export_error(document@.len(), decoded) is None),
        r matches Ok(p) ==> decoded == Ok::<ProfileExportV1, String>(p),
        r matches Err(e) ==> e matches DbError::Validation(m) && export_error(
            document@.len(),
            decoded,
        ) == Some(m@),
{
    if document.len() > MAX_PROFILE_BYTES {
        return Err(
            DbError::Validation("Profile document exceeds the 67108864-byte limit".to_owned()),
        );
    }
    let profile = match decoded {
        Err(error) => {
            return Err(validation_of(concat2("Invalid profile document: ", error.as_str())));
        },
        Ok(p) => p,
    };
    if !str_equals(profile.format.as_str(), PROFILE_FORMAT) {
        return Err(DbError::Validation("Unsupported profile format".to_owned()));
    }
    if profile.schema_version != PROFILE_SCHEMA_VERSION {
        let mut m = chars_of("Unsupported profile schema version: ");
        let mut d = decimal_chars(profile.schema_version as u64);
        m.append(&mut d);
        return Err(validation_of(m));
    }
    match check_timestamp(profile.exported_at.as_str(), "exported_at") {
        Err(e) => {
            return Err(e);
        },
        Ok(()) => {},
    }
    match check_string(profile.application_version.as_str(), "application_version", MAX_SHORT_TEXT, false) {
        Err(e) => {
            return Err(e);
        },
        Ok(()) => {},
    }
    match validate_payload(&profile.profile) {
        Err(e) => {
            return Err(e);
        },
        Ok(()) => {},
    }
    Ok(profile)
}

/// The error the metadata of a new export gets: the application version
/// is checked first, then the export time.
pub open spec fn export_metadata_error(application_version: Seq<char>, exported_at: Seq<char>) -> Option<
    Seq<char>,
> {
    either(
        string_error(application_version, "application_version"@, MAX_SHORT_TEXT as nat, false),
        timestamp_error(exported_at, "exported_at"@),
    )
}

/// Checks the metadata of a profile export before anything is read.
pub fn check_export_metadata(application_version: &str, exported_at: &str) -> (r: Result<(), DbError>)
    ensures
        r is Ok == (export_metadata_error(application_version@, exported_at@) is None),
        r matches Err(e) ==> e matches DbError::Validation(m) && export_metadata_error(
            application_version@,
            exported_at@,
        ) == Some(m@),
{
    match check_string(application_version, "application_version", MAX_SHORT_TEXT, false) {
        Err(e) => {
            return Err(e);
        },
        Ok(()) => {},
    }
    check_timestamp(exported_at, "exported_at")
}

/// Preview of one collection: rows already present are not inserted again.
pub fn plan_collection(incoming: usize, existing: usize) -> (p: CollectionImportPlan)
    ensures
        p == (CollectionImportPlan {
            incoming,
            existing,
            to_insert: if incoming > existing {
                (incoming - existing) as usize
            } else {
                0
            },
        }),
{
    CollectionImportPlan {
        incoming,
        existing,
        to_insert: incoming.saturating_sub(existing),
    }
}

/// Preview of an import, given how many incoming rows of each collection
/// already exist (tests, personal bests, daily statistics, streaks, custom
/// texts, lesson progress). A replace inserts every incoming row.
pub fn build_import_plan(payload: &ProfilePayloadV1, existing: [usize; 6], policy: ProfileImportPolicy) -> (p: ImportPlan)
    ensures
        p.policy == policy,
        p.tests.incoming == payload.tests@.len() && p.tests.existing == existing[0],
        p.personal_bests.incoming == payload.personal_bests@.len() && p.personal_bests.existing
            == existing[1],
        p.daily_stats.incoming == payload.daily_stats@.len() && p.daily_stats.existing
            == existing[2],
        p.streaks.incoming == payload.streaks@.len() && p.streaks.existing == existing[3],
        p.custom_texts.incoming == payload.custom_texts@.len() && p.custom_texts.existing
            == existing[4],
        p.lesson_progress.incoming == payload.lesson_progress@.len() && p.lesson_progress.existing
            == existing[5],
        forall|c: CollectionImportPlan|
            c == p.tests || c == p.personal_bests || c == p.daily_stats || c == p.streaks || c
                == p.custom_texts || c == p.lesson_progress ==> c.to_insert == (if policy
                == ProfileImportPolicy::Replace || c.incoming > c.existing {
                if policy == ProfileImportPolicy::Replace {
                    c.incoming
                } else {
                    (c.incoming - c.existing) as usize
                }
            } else {
                0
            }),
{
    let mut plan = ImportPlan {
        policy,
        tests: plan_collection(payload.tests.len(), existing[0]),
        personal_bests: plan_collection(payload.personal_bests.len(), existing[1]),
        daily_stats: plan_collection(payload.daily_stats.len(), existing[2]),
        streaks: plan_collection(payload.streaks.len(), existing[3]),
        custom_texts: plan_collection(payload.custom_texts.len(), existing[4]),
        lesson_progress: plan_collection(payload.lesson_progress.len(), existing[5]),
    };
    if policy == ProfileImportPolicy::Replace {
        plan.tests.to_insert = plan.tests.incoming;
        plan.personal_bests.to_insert = plan.personal_bests.incoming;
        plan.daily_stats.to_insert = plan.daily_stats.incoming;
        plan.streaks.to_insert = plan.streaks.incoming;
        plan.custom_texts.to_insert = plan.custom_texts.incoming;
        plan.lesson_progress.to_insert = plan.lesson_progress.incoming;
    }
    plan
}

} // verus!

//! Reporting over stored tests: the filter of history and export queries,
//! and the checks applied to stored rows before they are reported.

use vstd::prelude::*;

use crate::error::DbError;
use crate::text_pack::opt_str_view;
use crate::text::{append_str, chars_of, join_seqs, lemma_join_step, string_from_chars};

verus! {

/// The counters of a stored test, as reported.
#[derive(Debug, Clone, Copy, PartialEq, Eq, Structural)]
pub struct TestCounts {
    pub text_length: u64,
    pub duration_ms: u64,
    pub correct_chars: u64,
    pub incorrect_chars: u64,
    pub backspaces: u64,
}

/// The first stored counter that is negative, named in its message.
pub open spec fn counts_error(
    text_length: i64,
    duration_ms: i64,
    correct_chars: i64,
    incorrect_chars: i64,
    backspaces: i64,
) -> Option<Seq<char>> {
    if text_length < 0 {
        Some("text_length exceeds u64"@)
    } else if duration_ms < 0 {
        Some("duration_ms exceeds u64"@)
    } else if correct_chars < 0 {
        Some("correct_chars exceeds u64"@)
    } else if incorrect_chars < 0 {
        Some("incorrect_chars exceeds u64"@)
    } else if backspaces < 0 {
        Some("backspaces exceeds u64"@)
    } else {
        None
    }
}

fn to_u64(value: i64, message: &str) -> (r: Result<u64, DbError>)
    ensures
        r matches Ok(v) ==> value >= 0 && v == value,
        r matches Err(e) ==> value < 0 && (e matches DbError::Validation(m) && m@ == message@),
{
    if value < 0 {
        return Err(DbError::Validation(message.to_owned()));
    }
    Ok(value as u64)
}

/// Converts the stored counters of a test row to unsigned counts; a
/// negative counter is a validation error.
pub fn stored_test_counts(
    text_length: i64,
    duration_ms: i64,
    correct_chars: i64,
    incorrect_chars: i64,
    backspaces: i64,
) -> (r: Result<TestCounts, DbError>)
    ensures
        r is Ok == (counts_error(text_length, duration_ms, correct_chars, incorrect_chars, backspaces)
            is None),
        r matches Ok(c) ==> c.text_length == text_length && c.duration_ms == duration_ms
            && c.correct_chars == correct_chars && c.incorrect_chars == incorrect_chars
            && c.backspaces == backspaces,
        r matches Err(e) ==> e matches DbError::Validation(m) && counts_error(
            text_length,
            duration_ms,
            correct_chars,
            incorrect_chars,
            backspaces,
        ) == Some(m@),
{
    let text_length = match to_u64(text_length, "text_length exceeds u64") {
        Ok(v) => v,
        Err(e) => {
            return Err(e);
        },
    };
    let duration_ms = match to_u64(duration_ms, "duration_ms exceeds u64") {
        Ok(v) => v,
        Err(e) => {
            return Err(e);
        },
    };
    let correct_chars = match to_u64(correct_chars, "correct_chars exceeds u64") {
        Ok(v) => v,
        Err(e) => {
            return Err(e);
        },
    };
    let incorrect_chars = match to_u64(incorrect_chars, "incorrect_chars exceeds u64") {
        Ok(v) => v,
        Err(e) => {
            return Err(e);
        },
    };
    let backspaces = match to_u64(backspaces, "backspaces exceeds u64") {
        Ok(v) => v,
        Err(e) => {
            return Err(e);
        },
    };
    Ok(TestCounts { text_length, duration_ms, correct_chars, incorrect_chars, backspaces })
}


// ── Stored aggregates ──

/// The counters of a stored day, as reported.
#[derive(Debug, Clone, Copy, PartialEq, Eq, Structural)]
pub struct DailyCounts {
    pub total_tests: u64,
    pub total_time_ms: u64,
    pub total_chars: u64,
    pub lessons_completed: u64,
}

/// The first counter of a stored day that is negative, named in its message.
pub open spec fn daily_counts_error(
    total_tests: i64,
    total_time_ms: i64,
    total_chars: i64,
    lessons_completed: i64,
) -> Option<Seq<char>> {
    if total_tests < 0 {
        Some("total_tests exceeds u64"@)
    } else if total_time_ms < 0 {
        Some("total_time_ms exceeds u64"@)
    } else if total_chars < 0 {
        Some("total_chars exceeds u64"@)
    } else if lessons_completed < 0 {
        Some("lessons_completed exceeds u64"@)
    } else {
        None
    }
}

/// Converts the stored counters of a day to unsigned counts; a negative
/// counter is a validation error.
pub fn stored_daily_counts(
    total_tests: i64,
    total_time_ms: i64,
    total_chars: i64,
    lessons_completed: i64,
) -> (r: Result<DailyCounts, DbError>)
    ensures
        r is Ok == (daily_counts_error(total_tests, total_time_ms, total_chars, lessons_completed)
            is None),
        r matches Ok(c) ==> c.total_tests == total_tests && c.total_time_ms == total_time_ms
            && c.total_chars == total_chars && c.lessons_completed == lessons_completed,
        r matches Err(e) ==> e matches DbError::Validation(m) && daily_counts_error(
            total_tests,
            total_time_ms,
            total_chars,
            lessons_completed,
        ) == Some(m@),
{
    let total_tests = match to_u64(total_tests, "total_tests exceeds u64") {
        Ok(v) => v,
        Err(e) => {
            return Err(e);
        },
    };
    let total_time_ms = match to_u64(total_time_ms, "total_time_ms exceeds u64") {
        Ok(v) => v,
        Err(e) => {
            return Err(e);
        },
    };
    let total_chars = match to_u64(total_chars, "total_chars exceeds u64") {
        Ok(v) => v,
        Err(e) => {
            return Err(e);
        },
    };
    let lessons_completed = match to_u64(lessons_completed, "lessons_completed exceeds u64") {
        Ok(v) => v,
        Err(e) => {
            return Err(e);
        },
    };
    Ok(DailyCounts { total_tests, total_time_ms, total_chars, lessons_completed })
}

/// The current and longest daily streak of a stored streak row, `(0, 0)`
/// when there is none; a negative length is a validation error.
pub fn stored_streak_lengths(row: Option<(i64, i64)>) -> (r: Result<(u64, u64), DbError>)
    ensures
        row is None ==> r == Ok::<(u64, u64), DbError>((0u64, 0u64)),
        row matches Some((c, l)) ==> (r is Ok <==> c >= 0 && l >= 0),
        row matches Some((c, l)) ==> (r matches Ok(v) ==> v.0 == c && v.1 == l),
        r matches Err(e) ==> e matches DbError::Validation(m) && m@ == "streak exceeds u64"@,
{
    match row {
        None => Ok((0, 0)),
        Some((current, longest)) => {
            let current = match to_u64(current, "streak exceeds u64") {
                Ok(v) => v,
                Err(e) => {
                    return Err(e);
                },
            };
            let longest = match to_u64(longest, "streak exceeds u64") {
                Ok(v) => v,
                Err(e) => {
                    return Err(e);
                },
            };
            Ok((current, longest))
        },
    }
}

/// The counts behind achievements: tests taken, longest streak (none
/// stored is 0) and lessons completed.
#[derive(Debug, Clone, Copy, PartialEq, Eq, Structural)]
pub struct AchievementCounts {
    pub total_tests: u64,
    pub longest_streak: u64,
    pub lessons_completed: u64,
}

/// The first negative achievement count, named in its message.
pub open spec fn achievement_counts_error(
    total_tests: i64,
    longest_streak: i64,
    lessons_completed: i64,
) -> Option<Seq<char>> {
    if total_tests < 0 {
        Some("test count exceeds u64"@)
    } else if longest_streak < 0 {
        Some("streak exceeds u64"@)
    } else if lessons_completed < 0 {
        Some("lesson count exceeds u64"@)
    } else {
        None
    }
}

/// The longest streak of a stored streak row, 0 when there is none.
pub open spec fn stored_longest(row: Option<i64>) -> i64 {
    match row {
        Some(l) => l,
        None => 0,
    }
}

/// Converts the stored achievement counts; a negative count is a
/// validation error.
pub fn stored_achievement_counts(
    total_tests: i64,
    longest_streak: Option<i64>,
    lessons_completed: i64,
) -> (r: Result<AchievementCounts, DbError>)
    ensures
        r is Ok == (achievement_counts_error(
            total_tests,
            stored_longest(longest_streak),
            lessons_completed,
        ) is None),
        r matches Ok(c) ==> c.total_tests == total_tests && c.longest_streak == stored_longest(
            longest_streak,
        ) && c.lessons_completed == lessons_completed,
        r matches Err(e) ==> e matches DbError::Validation(m) && achievement_counts_error(
            total_tests,
            stored_longest(longest_streak),
            lessons_completed,
        ) == Some(m@),
{
    let longest = match longest_streak {
        Some(l) => l,
        None => 0,
    };
    let total_tests = match to_u64(total_tests, "test count exceeds u64") {
        Ok(v) => v,
        Err(e) => {
            return Err(e);
        },
    };
    let longest_streak = match to_u64(longest, "streak exceeds u64") {
        Ok(v) => v,
        Err(e) => {
            return Err(e);
        },
    };
    let lessons_completed = match to_u64(lessons_completed, "lesson count exceeds u64") {
        Ok(v) => v,
        Err(e) => {
            return Err(e);
        },
    };
    Ok(AchievementCounts { total_tests, longest_streak, lessons_completed })
}

/// `n` placeholders joined by `, `.
pub open spec fn placeholders(n: nat) -> Seq<char> {
    join_seqs(Seq::new(n, |i: int| "?"@), ", "@)
}

/// The query that counts completed lessons in `language_count` languages,
/// or none when there are no languages, whose count is then 0.
pub fn completed_lessons_sql(language_count: usize) -> (r: Option<String>)
    ensures
        r is None <==> language_count == 0,
        r matches Some(q) ==> q@
            == "SELECT COUNT(*) FROM lesson_progress WHERE status = 'completed' AND language IN ("@
            + placeholders(language_count as nat) + ")"@,
{
    if language_count == 0 {
        return None;
    }
    let mut q = chars_of(
        "SELECT COUNT(*) FROM lesson_progress WHERE status = 'completed' AND language IN (",
    );
    let ghost head = q@;
    let ghost parts = Seq::new(language_count as nat, |i: int| "?"@);
    let mut j: usize = 0;
    while j < language_count
        invariant
            j <= language_count,
            parts == Seq::new(language_count as nat, |i: int| "?"@),
            head == "SELECT COUNT(*) FROM lesson_progress WHERE status = 'completed' AND language IN ("@,
            q@ == head + join_seqs(parts.take(j as int), ", "@),
        decreases language_count - j,
    {
        proof {
            lemma_join_step(parts, ", "@, j as int);
        }
        if j > 0 {
            append_str(&mut q, ", ");
        }
        append_str(&mut q, "?");
        j = j + 1;
    }
    assert(parts.take(language_count as int) =~= parts);
    append_str(&mut q, ")");
    Some(string_from_chars(q.as_slice()))
}

// ── History filter ──

/// The `WHERE` clause of a history or export query and the values bound to
/// its placeholders, in order.
#[derive(Debug, Clone)]
pub struct HistoryFilter {
    pub clause: String,
    pub values: Vec<String>,
}

/// The conditions of a filter by mode and by half-open time range.
pub open spec fn filter_conditions(mode: bool, from: bool, to: bool) -> Seq<Seq<char>> {
    (if mode {
        seq!["mode_type = ?"@]
    } else {
        Seq::empty()
    }) + (if from {
        seq!["created_at >= ?"@]
    } else {
        Seq::empty()
    }) + (if to {
        seq!["created_at < ?"@]
    } else {
        Seq::empty()
    })
}

/// The values bound to the conditions.
pub open spec fn filter_values(mode: Option<Seq<char>>, from: Option<Seq<char>>, to: Option<Seq<char>>) -> Seq<
    Seq<char>,
> {
    (match mode {
        Some(m) => seq![m],
        None => Seq::empty(),
    }) + (match from {
        Some(f) => seq![f],
        None => Seq::empty(),
    }) + (match to {
        Some(t) => seq![t],
        None => Seq::empty(),
    })
}

/// The clause: nothing without conditions, else ` WHERE ` and the
/// conditions joined by ` AND `.
pub open spec fn filter_clause(conditions: Seq<Seq<char>>) -> Seq<char> {
    if conditions.len() == 0 {
        Seq::empty()
    } else {
        " WHERE "@ + join_seqs(conditions, " AND "@)
    }
}

/// Builds the filter of a history or export query by mode (`mode_type`)
/// and by the half-open range `[from, to)` of `created_at`.
pub fn history_filter(mode: Option<&str>, from: Option<&str>, to: Option<&str>) -> (r: HistoryFilter)
    ensures
        r.clause@ == filter_clause(filter_conditions(mode is Some, from is Some, to is Some)),
        r.values@.len() == filter_values(opt_str_view(mode), opt_str_view(from), opt_str_view(to)).len(),
        forall|i: int|
            0 <= i < r.values@.len() ==> (#[trigger] r.values@[i])@ == filter_values(
                opt_str_view(mode),
                opt_str_view(from),
                opt_str_view(to),
            )[i],
{
    let ghost conds = filter_conditions(mode is Some, from is Some, to is Some);
    let ghost vals = filter_values(opt_str_view(mode), opt_str_view(from), opt_str_view(to));
    let mut conditions: Vec<&str> = Vec::new();
    let mut values: Vec<String> = Vec::new();
    match mode {
        Some(m) => {
            conditions.push("mode_type = ?");
            values.push(m.to_owned());
        },
        None => {},
    }
    match from {
        Some(f) => {
            conditions.push("created_at >= ?");
            values.push(f.to_owned());
        },
        None => {},
    }
    match to {
        Some(t) => {
            conditions.push("created_at < ?");
            values.push(t.to_owned());
        },
        None => {},
    }
    let ghost cv = conditions@.map_values(|c: &str| c@);
    assert(cv =~= conds);
    assert(values@.len() == vals.len());
    assert forall|i: int| 0 <= i < values@.len() implies (#[trigger] values@[i])@ == vals[i] by {}
    let mut clause: Vec<char> = Vec::new();
    if conditions.len() > 0 {
        clause = chars_of(" WHERE ");
        let ghost head = clause@;
        let mut j: usize = 0;
        while j < conditions.len()
            invariant
                j <= conditions@.len(),
                conditions@.len() > 0,
                cv == conditions@.map_values(|c: &str| c@),
                head == " WHERE "@,
                clause@ == head + join_seqs(cv.take(j as int), " AND "@),
            decreases conditions.len() - j,
        {
            proof {
                lemma_join_step(cv, " AND "@, j as int);
            }
            if j > 0 {
                append_str(&mut clause, " AND ");
            }
            append_str(&mut clause, conditions[j]);
            j = j + 1;
        }
        assert(cv.take(conditions@.len() as int) =~= cv);
    }
    HistoryFilter { clause: string_from_chars(clause.as_slice()), values }
}

/// Whether a page of replay frames leaves frames after it: the frames
/// skipped and returned are fewer than all of them.
pub fn replay_page_has_more(offset: u64, returned: u64, total: u64) -> (b: bool)
    ensures
        b == (offset + returned < total),
{
    if offset > total || returned > total - offset {
        false
    } else {
        offset + returned < total
    }
}

} // verus!

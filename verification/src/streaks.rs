//! Daily practice streaks.
//!
//! Dates are `YYYY-MM-DD` strings; the calendar arithmetic is chrono's,
//! the streak rules are proved here.

use vstd::prelude::*;

use chrono::Datelike;

use crate::clock::utc_today;
use crate::text::{lemma_lex_irreflexive, lemma_lex_total, lemma_lex_transitive, lex_lt, str_equals, str_less};

verus! {

/// Streak state as shown to the user.
#[derive(Debug, Clone)]
pub struct StreakInfo {
    pub streak_type: String,
    pub current: i64,
    pub longest: i64,
    pub last_date: Option<String>,
    pub started_date: Option<String>,
    pub is_active: bool,
}

/// Computes and updates streaks.
pub struct StreakEngine;

/// The day number, counted in the proleptic Gregorian calendar with
/// 1 January of year 1 as day 1, of the date that chrono parses from `s`
/// with the format `%Y-%m-%d`; `None` when it does not parse.
pub uninterp spec fn ymd_day_number(s: Seq<char>) -> Option<i32>;

/// Parses `s` with `chrono::NaiveDate::parse_from_str(s, "%Y-%m-%d")` and,
/// when it parses, gives the date's `Datelike::num_days_from_ce`. The
/// contract only names the result: the calendar rules are chrono's.
#[verifier::external_body]
pub(crate) fn parse_ymd_day_number(s: &str) -> (r: Option<i32>)
    ensures
        r == ymd_day_number(s@),
{
    match chrono::NaiveDate::parse_from_str(s, "%Y-%m-%d") {
        Ok(d) => Some(d.num_days_from_ce()),
        Err(_) => None,
    }
}

/// Days from the day numbered `from` to the day numbered `to`; 0 when
/// either date is missing.
pub open spec fn day_difference(from: Option<i32>, to: Option<i32>) -> i64 {
    match (from, to) {
        (Some(f), Some(t)) => (t - f) as i64,
        _ => 0,
    }
}

/// Gap in days since the last practice day, `None` without one.
pub open spec fn last_gap(last_date: Option<&str>, today: &str) -> Option<i64> {
    match last_date {
        None => None,
        Some(last) => Some(day_difference(ymd_day_number(last@), ymd_day_number(today@))),
    }
}

/// New (current, longest, active) after practising on a day whose gap to
/// the last practice day is `gap` (`None`: no earlier practice). The same
/// day changes nothing, the next day extends the streak, a longer gap
/// starts over.
pub open spec fn streak_update(current: i64, longest: i64, gap: Option<i64>) -> (i64, i64, bool) {
    match gap {
        None => (1, if longest > 1 {
            longest
        } else {
            1
        }, true),
        Some(d) => if d == 0 {
            (current, longest, true)
        } else if d == 1 {
            ((current + 1) as i64, if longest > current + 1 {
                longest
            } else {
                (current + 1) as i64
            }, true)
        } else {
            (1, longest, true)
        },
    }
}

impl StreakEngine {
    /// A streak engine.
    pub fn new() -> (e: StreakEngine) {
        StreakEngine
    }

    /// Days between two day numbers; 0 when either is missing.
    pub fn day_difference_of(from_day: Option<i32>, to_day: Option<i32>) -> (d: i64)
        ensures
            d == day_difference(from_day, to_day),
    {
        match (from_day, to_day) {
            (Some(f), Some(t)) => (t as i64) - (f as i64),
            _ => 0,
        }
    }

    /// Days from `from` to `to` (both `YYYY-MM-DD`); 0 when either does not
    /// parse.
    pub fn days_between(from: &str, to: &str) -> (d: i64)
        ensures
            d == day_difference(ymd_day_number(from@), ymd_day_number(to@)),
    {
        let f = parse_ymd_day_number(from);
        let t = parse_ymd_day_number(to);
        Self::day_difference_of(f, t)
    }

    /// New (current, longest, active) for a practice whose gap to the last
    /// practice day is `gap`.
    pub fn advance_streak(current_streak: i64, longest_streak: i64, gap: Option<i64>) -> (r: (
        i64,
        i64,
        bool,
    ))
        requires
            gap == Some(1i64) ==> current_streak < i64::MAX,
        ensures
            r == streak_update(current_streak, longest_streak, gap),
    {
        match gap {
            None => (1, if longest_streak > 1 {
                longest_streak
            } else {
                1
            }, true),
            Some(d) => if d == 0 {
                (current_streak, longest_streak, true)
            } else if d == 1 {
                let next = current_streak + 1;
                (next, if longest_streak > next {
                    longest_streak
                } else {
                    next
                }, true)
            } else {
                (1, longest_streak, true)
            },
        }
    }

    /// New (current, longest, active) after a test on `today`, given the
    /// streak so far and the last practice day.
    pub fn compute_streak(
        current_streak: i64,
        longest_streak: i64,
        last_date: Option<&str>,
        today: &str,
    ) -> (r: (i64, i64, bool))
        requires
            last_gap(last_date, today) == Some(1i64) ==> current_streak < i64::MAX,
        ensures
            r == streak_update(current_streak, longest_streak, last_gap(last_date, today)),
    {
        let gap = match last_date {
            None => None,
            Some(last) => Some(Self::days_between(last, today)),
        };
        Self::advance_streak(current_streak, longest_streak, gap)
    }

    /// Whether the streak is alive: the last practice was today or
    /// yesterday (or its date does not parse).
    pub fn is_streak_active(last_date: Option<&str>, today: &str) -> (b: bool)
        ensures
            b == (last_gap(last_date, today) matches Some(d) && 0 <= d <= 1),
    {
        match last_date {
            None => false,
            Some(last) => {
                let diff = Self::days_between(last, today);
                diff == 0 || diff == 1
            },
        }
    }
}

/// The longest streak never shrinks, and the current streak stays within
/// the longest one, whenever the longest streak is at least one day or the
/// practice does not start a streak over.
pub proof fn streak_update_keeps_longest(current: i64, longest: i64, gap: Option<i64>)
    requires
        gap == Some(1i64) ==> current < i64::MAX,
    ensures
        streak_update(current, longest, gap).1 >= longest,
        streak_update(current, longest, gap).2,
        current <= longest && (longest >= 1 || gap is None || gap == Some(0i64) || gap == Some(
            1i64,
        )) ==> streak_update(current, longest, gap).0 <= streak_update(current, longest, gap).1,
{
}

/// A stored streak row.
#[derive(Debug, Clone)]
pub struct StreakRecord {
    pub streak_type: String,
    pub current_streak: i64,
    pub longest_streak: i64,
    pub last_date: Option<String>,
    pub started_date: Option<String>,
}

/// The view of an optional string.
pub open spec fn opt_view(s: Option<String>) -> Option<Seq<char>> {
    match s {
        Some(v) => Some(v@),
        None => None,
    }
}

/// Gap in days from an optional stored last date to `today`.
pub open spec fn stored_gap(last_date: Option<String>, today: Seq<char>) -> Option<i64> {
    match last_date {
        None => None,
        Some(last) => Some(day_difference(ymd_day_number(last@), ymd_day_number(today))),
    }
}

/// The daily streak row after a completed test on `today`, given the row
/// before it (`None`: no row yet, read as an empty streak). A new run
/// starts when there was no earlier practice or more than one day passed;
/// it then starts today.
pub open spec fn daily_streak_after(existing: Option<StreakRecord>, today: Seq<char>) -> (
    i64,
    i64,
    Option<Seq<char>>,
    Option<Seq<char>>,
) {
    let (current, longest, last, started) = match existing {
        Some(r) => (r.current_streak, r.longest_streak, r.last_date, opt_view(r.started_date)),
        None => (0i64, 0i64, None, None),
    };
    let gap = stored_gap(last, today);
    let starts_new = match gap {
        None => true,
        Some(d) => d > 1,
    };
    let next = streak_update(current, longest, gap);
    (next.0, next.1, Some(today), Some(if starts_new {
        today
    } else {
        match started {
            Some(s) => s,
            None => today,
        }
    }))
}

/// Updates the `daily_test` streak row for a test completed on `today`.
pub fn next_daily_streak(existing: Option<StreakRecord>, today: &str) -> (r: StreakRecord)
    requires
        existing matches Some(e) ==> (stored_gap(e.last_date, today@) == Some(1i64)
            ==> e.current_streak < i64::MAX),
    ensures
        r.streak_type@ == "daily_test"@,
        (r.current_streak, r.longest_streak, opt_view(r.last_date), opt_view(r.started_date))
            == daily_streak_after(existing, today@),
{
    let (current, longest, last_date, started_date) = match existing {
        Some(record) => (
            record.current_streak,
            record.longest_streak,
            record.last_date,
            record.started_date,
        ),
        None => (0i64, 0i64, None, None),
    };
    let starts_new = match &last_date {
        None => true,
        Some(last) => StreakEngine::days_between(last.as_str(), today) > 1,
    };
    let last_ref: Option<&str> = match &last_date {
        Some(last) => Some(last.as_str()),
        None => None,
    };
    let (next_current, next_longest, _) = StreakEngine::compute_streak(current, longest, last_ref, today);
    let started = if starts_new {
        today.to_owned()
    } else {
        match started_date {
            Some(s) => s,
            None => today.to_owned(),
        }
    };
    StreakRecord {
        streak_type: "daily_test".to_owned(),
        current_streak: next_current,
        longest_streak: next_longest,
        last_date: Some(today.to_owned()),
        started_date: Some(started),
    }
}

/// Whether the streak of `existing` would pass the largest storable length
/// by a practice on `today` (it is at `i64::MAX` and `today` is the next day).
pub open spec fn streak_would_overflow(existing: Option<StreakRecord>, today: Seq<char>) -> bool {
    existing matches Some(e) && stored_gap(e.last_date, today) == Some(1i64) && e.current_streak
        == i64::MAX
}

/// Updates the `daily_test` streak row for a test completed on `today`, or
/// gives `None` when the streak is already as long as it can be stored and
/// would grow by one more day.
pub fn checked_next_daily_streak(existing: Option<StreakRecord>, today: &str) -> (r: Option<
    StreakRecord,
>)
    ensures
        r is None == streak_would_overflow(existing, today@),
        r matches Some(x) ==> x.streak_type@ == "daily_test"@ && (
            x.current_streak,
            x.longest_streak,
            opt_view(x.last_date),
            opt_view(x.started_date),
        ) == daily_streak_after(existing, today@),
{
    let overflow = match &existing {
        Some(e) => match &e.last_date {
            Some(last) => StreakEngine::days_between(last.as_str(), today) == 1 && e.current_streak
                == i64::MAX,
            None => false,
        },
        None => false,
    };
    if overflow {
        return None;
    }
    Some(next_daily_streak(existing, today))
}

/// Recording a second test on the same day changes nothing: the daily
/// streak row after it equals the row after the first test of that day.
pub proof fn second_test_same_day_keeps_streak(
    existing: Option<StreakRecord>,
    today: Seq<char>,
    first: StreakRecord,
)
    requires
        (first.current_streak, first.longest_streak, opt_view(first.last_date), opt_view(
            first.started_date,
        )) == daily_streak_after(existing, today),
    ensures
        daily_streak_after(Some(first), today) == daily_streak_after(existing, today),
{
}

// ── Streaks from a list of test dates ──

/// `u` is strictly increasing.
pub open spec fn strictly_increasing(u: Seq<Seq<char>>) -> bool {
    forall|i: int, j: int| 0 <= i < j < u.len() ==> lex_lt(#[trigger] u[i], #[trigger] u[j])
}

/// `u` lists the distinct dates of `dates`, in increasing order.
pub open spec fn distinct_in_order(u: Seq<Seq<char>>, dates: Seq<String>) -> bool {
    &&& strictly_increasing(u)
    &&& forall|x: Seq<char>| u.contains(x) <==> exists|k: int| 0 <= k < dates.len() && #[trigger] dates[k]@ == x
}

/// (current run, longest run) over the increasing dates `u`: a date one
/// day after the previous one extends the run, a later one starts over,
/// another leaves it as it is.
pub open spec fn run_scan(u: Seq<Seq<char>>) -> (int, int)
    decreases u.len(),
{
    if u.len() <= 1 {
        (1, 1)
    } else {
        let st = run_scan(u.drop_last());
        let d = day_difference(ymd_day_number(u[u.len() - 2]), ymd_day_number(u.last()));
        if d == 1 {
            (st.0 + 1, if st.1 >= st.0 + 1 {
                st.1
            } else {
                st.0 + 1
            })
        } else if d > 1 {
            (1, st.1)
        } else {
            st
        }
    }
}

/// (current, longest) streak of the increasing distinct dates `u` as of
/// `today`: the current streak is over when the last date is more than a
/// day before today.
pub open spec fn streak_of_days(u: Seq<Seq<char>>, today: Seq<char>) -> (int, int) {
    if u.len() == 0 {
        (0, 0)
    } else {
        let st = run_scan(u);
        (if day_difference(ymd_day_number(u.last()), ymd_day_number(today)) > 1 {
            0
        } else {
            st.0
        }, st.1)
    }
}

/// The dates picked by `order`, in that order.
pub open spec fn picked(order: Seq<usize>, dates: Seq<String>) -> Seq<Seq<char>> {
    Seq::new(order.len(), |j: int| dates[order[j] as int]@)
}

/// Indexes of the distinct dates of `dates`, ordered by date.
fn distinct_date_order(dates: &[String]) -> (order: Vec<usize>)
    ensures
        distinct_in_order(picked(order@, dates@), dates@),
        forall|j: int| 0 <= j < order@.len() ==> #[trigger] order@[j] < dates@.len(),
        order@.len() <= dates@.len(),
{
    let mut order: Vec<usize> = Vec::new();
    let mut i: usize = 0;
    while i < dates.len()
        invariant
            i <= dates@.len(),
            order@.len() <= i,
            forall|j: int| 0 <= j < order@.len() ==> #[trigger] order@[j] < i,
            strictly_increasing(picked(order@, dates@)),
            forall|x: Seq<char>|
                picked(order@, dates@).contains(x) <==> exists|k: int|
                    0 <= k < i && #[trigger] dates@[k]@ == x,
        decreases dates.len() - i,
    {
        let ghost u = picked(order@, dates@);
        let ghost x = dates@[i as int]@;
        let mut p: usize = 0;
        while p < order.len() && str_less(dates[order[p]].as_str(), dates[i].as_str())
            invariant
                p <= order@.len(),
                u == picked(order@, dates@),
                x == dates@[i as int]@,
                forall|j: int| 0 <= j < order@.len() ==> #[trigger] order@[j] < i,
                i < dates@.len(),
                order@.len() <= i,
                forall|k: int| 0 <= k < p ==> lex_lt(#[trigger] u[k], x),
            decreases order.len() - p,
        {
            p = p + 1;
        }
        let present = p < order.len() && str_equals(dates[order[p]].as_str(), dates[i].as_str());
        if !present {
            proof {
                if p < order@.len() {
                    lemma_lex_total(u[p as int], x);
                    assert(!lex_lt(u[p as int], x));
                    assert(lex_lt(x, u[p as int]));
                }
                assert forall|k: int| p <= k < u.len() implies lex_lt(x, #[trigger] u[k]) by {
                    if k > p {
                        lemma_lex_transitive(x, u[p as int], u[k]);
                    }
                }
            }
            order.insert(p, i);
            proof {
                let v = picked(order@, dates@);
                assert(v =~= u.insert(p as int, x));
                assert forall|a: int, b: int| 0 <= a < b < v.len() implies lex_lt(
                    #[trigger] v[a],
                    #[trigger] v[b],
                ) by {
                    if b < p {
                    } else if a < p && b == p {
                    } else if a < p {
                        assert(v[b] == u[b - 1]);
                        lemma_lex_transitive(u[a], x, u[b - 1]);
                    } else if a == p {
                        assert(v[b] == u[b - 1]);
                    } else {
                        assert(v[a] == u[a - 1] && v[b] == u[b - 1]);
                    }
                }
                assert forall|y: Seq<char>| v.contains(y) <==> exists|k: int|
                    0 <= k < i + 1 && #[trigger] dates@[k]@ == y by {
                    if v.contains(y) {
                        let j = choose|j: int| 0 <= j < v.len() && v[j] == y;
                        if j == p {
                            assert(dates@[i as int]@ == y);
                        } else if j < p {
                            assert(u[j] == y);
                            assert(u.contains(y));
                        } else {
                            assert(u[j - 1] == y);
                            assert(u.contains(y));
                        }
                    }
                    if exists|k: int| 0 <= k < i + 1 && #[trigger] dates@[k]@ == y {
                        let k = choose|k: int| 0 <= k < i + 1 && #[trigger] dates@[k]@ == y;
                        if k == i {
                            assert(v[p as int] == y);
                        } else {
                            assert(u.contains(y));
                            let j = choose|j: int| 0 <= j < u.len() && u[j] == y;
                            if j < p {
                                assert(v[j] == y);
                            } else {
                                assert(v[j + 1] == y);
                            }
                        }
                    }
                }
            }
        } else {
            proof {
                assert(u[p as int] == x);
                assert forall|y: Seq<char>| u.contains(y) <==> exists|k: int|
                    0 <= k < i + 1 && #[trigger] dates@[k]@ == y by {
                    if exists|k: int| 0 <= k < i + 1 && #[trigger] dates@[k]@ == y {
                        let k = choose|k: int| 0 <= k < i + 1 && #[trigger] dates@[k]@ == y;
                        if k == i {
                            assert(u.contains(y));
                        }
                    }
                }
            }
        }
        i = i + 1;
    }
    order
}

/// (current, longest) streak of the dates `dates` (`YYYY-MM-DD`, in any
/// order, repeats allowed) as of `today`.
pub fn streak_from_dates_on(dates: &[String], today: &str) -> (r: (i64, i64))
    requires
        dates@.len() <= i64::MAX,
    ensures
        exists|u: Seq<Seq<char>>|
            distinct_in_order(u, dates@) && (r.0 as int, r.1 as int) == streak_of_days(u, today@),
{
    let order = distinct_date_order(dates);
    let ghost u = picked(order@, dates@);
    if order.len() == 0 {
        assert(streak_of_days(u, today@) == (0int, 0int));
        return (0, 0);
    }
    let mut current: i64 = 1;
    let mut longest: i64 = 1;
    let mut j: usize = 1;
    assert(u.take(1).len() == 1);
    while j < order.len()
        invariant
            1 <= j <= order@.len(),
            order@.len() <= i64::MAX,
            u == picked(order@, dates@),
            forall|k: int| 0 <= k < order@.len() ==> #[trigger] order@[k] < dates@.len(),
            (current as int, longest as int) == run_scan(u.take(j as int)),
            1 <= current <= j && 1 <= longest <= j,
        decreases order.len() - j,
    {
        let d = StreakEngine::days_between(dates[order[j - 1]].as_str(), dates[order[j]].as_str());
        proof {
            let t = u.take(j + 1);
            assert(t.drop_last() =~= u.take(j as int));
            assert(t[t.len() - 2] == u[j - 1]);
            assert(t.last() == u[j as int]);
        }
        if d == 1 {
            current = current + 1;
            if current > longest {
                longest = current;
            }
        } else if d > 1 {
            current = 1;
        }
        j = j + 1;
    }
    assert(u.take(j as int) =~= u);
    let last = order[order.len() - 1];
    if StreakEngine::days_between(dates[last].as_str(), today) > 1 {
        current = 0;
    }
    (current, longest)
}

/// Over any increasing dates, the run in progress never exceeds the
/// longest run, which never exceeds the number of dates.
pub proof fn lemma_run_scan_bounds(u: Seq<Seq<char>>)
    requires
        u.len() >= 1,
    ensures
        1 <= run_scan(u).0 <= run_scan(u).1 <= u.len(),
    decreases u.len(),
{
    if u.len() > 1 {
        lemma_run_scan_bounds(u.drop_last());
    }
}

/// The current streak never exceeds the longest one, and the longest
/// streak never exceeds the number of distinct days.
pub proof fn current_streak_within_longest(u: Seq<Seq<char>>, today: Seq<char>)
    ensures
        0 <= streak_of_days(u, today).0 <= streak_of_days(u, today).1 <= u.len(),
{
    if u.len() >= 1 {
        lemma_run_scan_bounds(u);
    }
}

/// Two increasing sequences with the same elements are equal.
pub proof fn lemma_increasing_unique(u: Seq<Seq<char>>, v: Seq<Seq<char>>)
    requires
        strictly_increasing(u),
        strictly_increasing(v),
        forall|x: Seq<char>| u.contains(x) <==> v.contains(x),
    ensures
        u =~= v,
    decreases u.len(),
{
    if u.len() == 0 {
        if v.len() > 0 {
            assert(v.contains(v[0]));
        }
    } else if v.len() == 0 {
        assert(u.contains(u[0]));
    } else {
        // the first elements are both the least element
        assert(v.contains(u[0]));
        assert(u.contains(v[0]));
        let i = choose|i: int| 0 <= i < v.len() && v[i] == u[0];
        let j = choose|j: int| 0 <= j < u.len() && u[j] == v[0];
        if i > 0 {
            assert(lex_lt(v[0], v[i]));
            if j > 0 {
                assert(lex_lt(u[0], u[j]));
                lemma_lex_transitive(u[0], u[j], u[0]);
                lemma_lex_irreflexive(u[0]);
            } else {
                lemma_lex_irreflexive(u[0]);
            }
        }
        assert(u[0] == v[0]);
        let u1 = u.drop_first();
        let v1 = v.drop_first();
        assert forall|x: Seq<char>| u1.contains(x) <==> v1.contains(x) by {
            if u1.contains(x) {
                let a = choose|a: int| 0 <= a < u1.len() && u1[a] == x;
                assert(u[a + 1] == x);
                assert(lex_lt(u[0], x));
                assert(v.contains(x));
                let b = choose|b: int| 0 <= b < v.len() && v[b] == x;
                if b == 0 {
                    lemma_lex_irreflexive(x);
                }
                assert(v1[b - 1] == x);
            }
            if v1.contains(x) {
                let a = choose|a: int| 0 <= a < v1.len() && v1[a] == x;
                assert(v[a + 1] == x);
                assert(lex_lt(v[0], x));
                assert(u.contains(x));
                let b = choose|b: int| 0 <= b < u.len() && u[b] == x;
                if b == 0 {
                    lemma_lex_irreflexive(x);
                }
                assert(u1[b - 1] == x);
            }
        }
        lemma_increasing_unique(u1, v1);
        assert forall|k: int| 0 <= k < u.len() implies u[k] == v[k] by {
            if k > 0 {
                assert(u[k] == u1[k - 1]);
                assert(v[k] == v1[k - 1]);
            }
        }
    }
}

/// Streaks depend only on which days have tests: repeating dates or
/// listing them in another order gives the same streaks.
pub proof fn streaks_ignore_order_and_repeats(
    dates: Seq<String>,
    other: Seq<String>,
    u: Seq<Seq<char>>,
    v: Seq<Seq<char>>,
    today: Seq<char>,
)
    requires
        forall|k: int|
            0 <= k < dates.len() ==> exists|m: int|
                0 <= m < other.len() && #[trigger] other[m]@ == (#[trigger] dates[k])@,
        forall|m: int|
            0 <= m < other.len() ==> exists|k: int|
                0 <= k < dates.len() && #[trigger] dates[k]@ == (#[trigger] other[m])@,
        distinct_in_order(u, dates),
        distinct_in_order(v, other),
    ensures
        streak_of_days(u, today) == streak_of_days(v, today),
{
    assert forall|x: Seq<char>| u.contains(x) <==> v.contains(x) by {
        if u.contains(x) {
            let k = choose|k: int| 0 <= k < dates.len() && #[trigger] dates[k]@ == x;
            let m = choose|m: int| 0 <= m < other.len() && #[trigger] other[m]@ == dates[k]@;
            assert(other[m]@ == x);
        }
        if v.contains(x) {
            let m = choose|m: int| 0 <= m < other.len() && #[trigger] other[m]@ == x;
            let k = choose|k: int| 0 <= k < dates.len() && #[trigger] dates[k]@ == other[m]@;
            assert(dates[k]@ == x);
        }
    }
    lemma_increasing_unique(u, v);
}

impl StreakEngine {
    /// (current, longest) streak of the test dates `dates` as of today's
    /// UTC date; today's date comes from the clock. When the clock cannot
    /// give a date (it reads before the Unix epoch), the current streak is
    /// 0 and the longest is still counted.
    pub fn streak_from_dates(dates: &[String]) -> (r: (i64, i64))
        requires
            dates@.len() <= i64::MAX,
        ensures
            exists|u: Seq<Seq<char>>|
                distinct_in_order(u, dates@) && r.1 as int == streak_of_days(u, Seq::empty()).1
                    && (r.0 == 0 || exists|today: Seq<char>|
                    r.0 as int == #[trigger] streak_of_days(u, today).0),
    {
        if dates.len() == 0 {
            let ghost u = Seq::<Seq<char>>::empty();
            assert(distinct_in_order(u, dates@));
            assert(streak_of_days(u, Seq::empty()) == (0int, 0int));
            return (0, 0);
        }
        match utc_today() {
            Some(today) => {
                let r = streak_from_dates_on(dates, today.as_str());
                proof {
                    let u = choose|u: Seq<Seq<char>>|
                        distinct_in_order(u, dates@) && (r.0 as int, r.1 as int) == streak_of_days(
                            u,
                            today@,
                        );
                    assert(streak_of_days(u, Seq::empty()).1 == streak_of_days(u, today@).1);
                }
                r
            },
            None => {
                let r = streak_from_dates_on(dates, "");
                proof {
                    let u = choose|u: Seq<Seq<char>>|
                        distinct_in_order(u, dates@) && (r.0 as int, r.1 as int) == streak_of_days(
                            u,
                            ""@,
                        );
                    assert(streak_of_days(u, Seq::empty()).1 == streak_of_days(u, ""@).1);
                }
                (0, r.1)
            },
        }
    }
}

} // verus!

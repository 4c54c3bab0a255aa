//! Keystroke counters and per-character statistics of a typing test.
//!
//! Speed and accuracy percentages are derived from these counts by the
//! caller; everything counted here is exact.

use std::time::Instant;

use vstd::prelude::*;

use crate::clock::millis_since;
use crate::domain::{CharStat, CharStatus, KeyHeat, TypedChar};
use crate::typing::{count_status, TextBuffer, TypingResult};

verus! {

/// Number of entries of `s` satisfying `p`.
pub open spec fn count_where(s: Seq<TypedChar>, p: spec_fn(TypedChar) -> bool) -> nat
    decreases s.len(),
{
    if s.len() == 0 {
        0
    } else {
        count_where(s.drop_last(), p) + if p(s.last()) {
            1nat
        } else {
            0nat
        }
    }
}

proof fn count_where_bounded(s: Seq<TypedChar>, p: spec_fn(TypedChar) -> bool)
    ensures
        count_where(s, p) <= s.len(),
    decreases s.len(),
{
    if s.len() > 0 {
        count_where_bounded(s.drop_last(), p);
    }
}

proof fn count_where_push(s: Seq<TypedChar>, x: TypedChar, p: spec_fn(TypedChar) -> bool)
    ensures
        count_where(s.push(x), p) == count_where(s, p) + if p(x) {
            1nat
        } else {
            0nat
        },
{
    assert(s.push(x).drop_last() =~= s);
}

proof fn count_where_disjoint(
    s: Seq<TypedChar>,
    p: spec_fn(TypedChar) -> bool,
    q: spec_fn(TypedChar) -> bool,
)
    requires
        forall|t: TypedChar| !(#[trigger] p(t) && q(t)),
    ensures
        count_where(s, p) + count_where(s, q) <= s.len(),
    decreases s.len(),
{
    if s.len() > 0 {
        count_where_disjoint(s.drop_last(), p, q);
    }
}

proof fn count_where_none(s: Seq<TypedChar>, p: spec_fn(TypedChar) -> bool)
    requires
        forall|i: int| 0 <= i < s.len() ==> !p(#[trigger] s[i]),
    ensures
        count_where(s, p) == 0,
    decreases s.len(),
{
    if s.len() > 0 {
        assert forall|i: int| 0 <= i < s.drop_last().len() implies !p(
            #[trigger] s.drop_last()[i],
        ) by {
            assert(s.drop_last()[i] == s[i]);
        }
        count_where_none(s.drop_last(), p);
        assert(!p(s[s.len() - 1]));
    }
}

/// Positions whose first attempt exists.
pub open spec fn attempted() -> spec_fn(TypedChar) -> bool {
    |t: TypedChar| t.first_typed is Some
}

/// Positions whose first attempt exists and was right.
pub open spec fn first_right() -> spec_fn(TypedChar) -> bool {
    |t: TypedChar| t.first_typed is Some && t.first_correct
}

/// Positions expecting `k` whose status is `st`.
pub open spec fn expecting_with(k: char, st: CharStatus) -> spec_fn(TypedChar) -> bool {
    |t: TypedChar| t.expected == k && t.status == st
}

/// Positions expecting `k` with a first attempt whose rightness is `right`.
pub open spec fn expecting_first(k: char, right: bool) -> spec_fn(TypedChar) -> bool {
    |t: TypedChar| t.expected == k && t.first_typed is Some && t.first_correct == right
}

/// Final counters of character `k` over the positions `s`.
pub open spec fn char_stat_of(s: Seq<TypedChar>, k: char) -> CharStat {
    let c = count_where(s, expecting_with(k, CharStatus::Correct));
    let i = count_where(s, expecting_with(k, CharStatus::Incorrect));
    CharStat { correct: c as usize, incorrect: i as usize, total: (c + i) as usize }
}

/// First-attempt counters of character `k` over the positions `s`.
pub open spec fn key_heat_of(s: Seq<TypedChar>, k: char) -> KeyHeat {
    let c = count_where(s, expecting_first(k, true));
    let i = count_where(s, expecting_first(k, false));
    KeyHeat { total_attempts: (c + i) as usize, correct: c as usize, incorrect: i as usize }
}

/// The counters of a character add up: its total is the number of its
/// right positions plus the number of its wrong ones, and no count exceeds
/// the number of positions. The same holds of its first attempts.
pub proof fn char_counters_add_up(s: Seq<TypedChar>, k: char)
    requires
        s.len() <= usize::MAX,
    ensures
        char_stat_of(s, k).total == char_stat_of(s, k).correct + char_stat_of(s, k).incorrect,
        char_stat_of(s, k).total <= s.len(),
        key_heat_of(s, k).total_attempts == key_heat_of(s, k).correct + key_heat_of(
            s,
            k,
        ).incorrect,
        key_heat_of(s, k).total_attempts <= s.len(),
{
    count_where_disjoint(
        s,
        expecting_with(k, CharStatus::Correct),
        expecting_with(k, CharStatus::Incorrect),
    );
    count_where_disjoint(s, expecting_first(k, true), expecting_first(k, false));
}

/// `table` has no repeated key.
pub open spec fn keys_distinct<V>(table: Seq<(char, V)>) -> bool {
    forall|a: int, b: int|
        0 <= a < b < table.len() ==> (#[trigger] table[a]).0 != (#[trigger] table[b]).0
}

/// `k` is a key of `table`.
pub open spec fn has_key<V>(table: Seq<(char, V)>, k: char) -> bool {
    exists|j: int| 0 <= j < table.len() && (#[trigger] table[j]).0 == k
}

/// Live keystroke counters, updated on every key.
#[derive(Debug, Clone)]
pub struct LiveTracker {
    pub correct_chars: usize,
    pub incorrect_chars: usize,
    pub backspaces: usize,
    pub total_keystrokes: usize,
    pub start_time: Option<Instant>,
}

/// Counters after registering one keystroke outcome.
pub open spec fn tracked_counts(counts: (usize, usize, usize, usize), r: TypingResult) -> (
    usize,
    usize,
    usize,
    usize,
) {
    let (c, i, b, t) = counts;
    let t2 = (t + 1) as usize;
    match r {
        TypingResult::Correct => ((c + 1) as usize, i, b, t2),
        TypingResult::Incorrect => (c, (i + 1) as usize, b, t2),
        TypingResult::UndoneCorrect => (
            if c > 0 {
                (c - 1) as usize
            } else {
                c
            },
            i,
            (b + 1) as usize,
            t2,
        ),
        TypingResult::UndoneIncorrect => (
            c,
            if i > 0 {
                (i - 1) as usize
            } else {
                i
            },
            (b + 1) as usize,
            t2,
        ),
        _ => (c, i, b, t2),
    }
}

impl LiveTracker {
    /// The four counters.
    pub open spec fn counts(&self) -> (usize, usize, usize, usize) {
        (self.correct_chars, self.incorrect_chars, self.backspaces, self.total_keystrokes)
    }

    /// No counter is at its maximum, so one more keystroke can be counted.
    pub open spec fn has_room(&self) -> bool {
        self.correct_chars < usize::MAX && self.incorrect_chars < usize::MAX && self.backspaces
            < usize::MAX && self.total_keystrokes < usize::MAX
    }

    /// All counters at zero, no start time.
    pub fn new() -> (t: LiveTracker)
        ensures
            t.counts() == (0usize, 0usize, 0usize, 0usize),
            t.start_time is None,
    {
        LiveTracker {
            correct_chars: 0,
            incorrect_chars: 0,
            backspaces: 0,
            total_keystrokes: 0,
            start_time: None,
        }
    }

    /// Back to the state of `new`.
    pub fn reset(&mut self)
        ensures
            final(self).counts() == (0usize, 0usize, 0usize, 0usize),
            final(self).start_time is None,
    {
        *self = LiveTracker::new();
    }

    /// Whether one more keystroke can be counted without overflow.
    pub fn can_count(&self) -> (b: bool)
        ensures
            b == self.has_room(),
    {
        self.correct_chars < usize::MAX && self.incorrect_chars < usize::MAX && self.backspaces
            < usize::MAX && self.total_keystrokes < usize::MAX
    }

    /// Registers one keystroke outcome; the timer is taken from the buffer
    /// the first time it is running.
    pub fn on_key_processed(&mut self, result: &TypingResult, buf: &TextBuffer)
        requires
            old(self).has_room(),
        ensures
            final(self).counts() == tracked_counts(old(self).counts(), *result),
            old(self).start_time is Some ==> final(self).start_time == old(self).start_time,
            old(self).start_time is None ==> final(self).start_time == buf.start_time,
    {
        self.total_keystrokes = self.total_keystrokes + 1;
        if self.start_time.is_none() {
            self.start_time = buf.start_time;
        }
        match result {
            TypingResult::Correct => {
                self.correct_chars = self.correct_chars + 1;
            },
            TypingResult::Incorrect => {
                self.incorrect_chars = self.incorrect_chars + 1;
            },
            TypingResult::UndoneCorrect => {
                self.backspaces = self.backspaces + 1;
                if self.correct_chars > 0 {
                    self.correct_chars = self.correct_chars - 1;
                }
            },
            TypingResult::UndoneIncorrect => {
                self.backspaces = self.backspaces + 1;
                if self.incorrect_chars > 0 {
                    self.incorrect_chars = self.incorrect_chars - 1;
                }
            },
            _ => {},
        }
    }

    /// Milliseconds since the tracker's timer started; 0 before that.
    pub fn elapsed_ms(&self) -> (ms: u64)
        ensures
            self.start_time is None ==> ms == 0,
    {
        match &self.start_time {
            Some(t) => millis_since(t),
            None => 0,
        }
    }
}

/// Counters shown while a test runs.
#[derive(Debug, Clone, Copy, PartialEq, Eq, Structural)]
pub struct LiveCounts {
    pub correct_chars: usize,
    pub incorrect_chars: usize,
    pub backspaces: usize,
    pub elapsed_ms: u64,
}

/// Exact counts of a finished test, from which speed and accuracy follow.
#[derive(Debug, PartialEq, Eq)]
pub struct FinalStats {
    /// Positions correct at the end.
    pub correct_chars: usize,
    /// Positions wrong at the end.
    pub incorrect_chars: usize,
    /// Positions erased by backspace at the end.
    pub backspaces: usize,
    /// Positions whose first attempt was right.
    pub first_correct: usize,
    /// Positions with a first attempt.
    pub first_attempts: usize,
    /// Final counters per character of the text.
    pub char_stats: Vec<(char, CharStat)>,
    /// First-attempt counters per attempted character.
    pub heatmap: Vec<(char, KeyHeat)>,
    /// Test duration.
    pub duration_ms: u64,
}

fn copy_table<V: Copy>(t: &Vec<(char, V)>) -> (r: Vec<(char, V)>)
    ensures
        r@ == t@,
{
    let mut r: Vec<(char, V)> = Vec::new();
    let mut i: usize = 0;
    while i < t.len()
        invariant
            i <= t@.len(),
            r@ == t@.take(i as int),
        decreases t@.len() - i,
    {
        r.push(t[i]);
        i = i + 1;
        assert(r@ =~= t@.take(i as int));
    }
    assert(t@.take(i as int) =~= t@);
    r
}

/// Mathematical content of final statistics.
pub struct StatsView {
    pub correct_chars: usize,
    pub incorrect_chars: usize,
    pub backspaces: usize,
    pub first_correct: usize,
    pub first_attempts: usize,
    pub char_stats: Seq<(char, CharStat)>,
    pub heatmap: Seq<(char, KeyHeat)>,
    pub duration_ms: u64,
}

impl View for FinalStats {
    type V = StatsView;

    open spec fn view(&self) -> StatsView {
        StatsView {
            correct_chars: self.correct_chars,
            incorrect_chars: self.incorrect_chars,
            backspaces: self.backspaces,
            first_correct: self.first_correct,
            first_attempts: self.first_attempts,
            char_stats: self.char_stats@,
            heatmap: self.heatmap@,
            duration_ms: self.duration_ms,
        }
    }
}

/// The view of an optional result.
pub open spec fn opt_stats_view(o: Option<FinalStats>) -> Option<StatsView> {
    match o {
        Some(f) => Some(f@),
        None => None,
    }
}

impl Clone for FinalStats {
    fn clone(&self) -> (r: FinalStats)
        ensures
            r@ == self@,
    {
        let r = FinalStats {
            correct_chars: self.correct_chars,
            incorrect_chars: self.incorrect_chars,
            backspaces: self.backspaces,
            first_correct: self.first_correct,
            first_attempts: self.first_attempts,
            char_stats: copy_table(&self.char_stats),
            heatmap: copy_table(&self.heatmap),
            duration_ms: self.duration_ms,
        };
        r
    }
}

/// `f` holds exactly the counts of the positions `s`.
pub open spec fn stats_describe(f: StatsView, s: Seq<TypedChar>) -> bool {
    &&& f.correct_chars == count_status(s, CharStatus::Correct)
    &&& f.incorrect_chars == count_status(s, CharStatus::Incorrect)
    &&& f.backspaces == count_status(s, CharStatus::Backspaced)
    &&& f.first_correct == count_where(s, first_right())
    &&& f.first_attempts == count_where(s, attempted())
    &&& keys_distinct(f.char_stats)
    &&& forall|k: char|
        has_key(f.char_stats, k) <==> exists|i: int|
            0 <= i < s.len() && (#[trigger] s[i]).expected == k
    &&& forall|j: int|
        0 <= j < f.char_stats.len() ==> (#[trigger] f.char_stats[j]).1 == char_stat_of(
            s,
            f.char_stats[j].0,
        )
    &&& keys_distinct(f.heatmap)
    &&& forall|k: char|
        has_key(f.heatmap, k) <==> exists|i: int|
            0 <= i < s.len() && (#[trigger] s[i]).expected == k && s[i].first_typed is Some
    &&& forall|j: int|
        0 <= j < f.heatmap.len() ==> (#[trigger] f.heatmap[j]).1 == key_heat_of(
            s,
            f.heatmap[j].0,
        )
}

/// Builds per-character tables from a buffer.
pub struct HeatmapBuilder;

impl HeatmapBuilder {
    /// Number of positions whose first attempt was right.
    pub fn count_first_correct(buf: &TextBuffer) -> (n: usize)
        ensures
            n == count_where(buf.typed_chars@, first_right()),
    {
        let s = &buf.typed_chars;
        let mut n: usize = 0;
        let mut i: usize = 0;
        while i < s.len()
            invariant
                i <= s@.len(),
                n == count_where(s@.take(i as int), first_right()),
            decreases s@.len() - i,
        {
            proof {
                count_where_bounded(s@.take(i as int), first_right());
            }
            assert(s@.take(i + 1).drop_last() =~= s@.take(i as int));
            if s[i].first_typed.is_some() && s[i].first_correct {
                n = n + 1;
            }
            i = i + 1;
        }
        assert(s@.take(i as int) =~= s@);
        n
    }

    /// Number of positions with a first attempt.
    pub fn count_first_attempts(buf: &TextBuffer) -> (n: usize)
        ensures
            n == count_where(buf.typed_chars@, attempted()),
    {
        let s = &buf.typed_chars;
        let mut n: usize = 0;
        let mut i: usize = 0;
        while i < s.len()
            invariant
                i <= s@.len(),
                n == count_where(s@.take(i as int), attempted()),
            decreases s@.len() - i,
        {
            proof {
                count_where_bounded(s@.take(i as int), attempted());
            }
            assert(s@.take(i + 1).drop_last() =~= s@.take(i as int));
            if s[i].first_typed.is_some() {
                n = n + 1;
            }
            i = i + 1;
        }
        assert(s@.take(i as int) =~= s@);
        n
    }

    /// Final counters per character of the text, one entry per distinct
    /// character in order of first appearance. Only correct and wrong
    /// positions are counted; pending and erased ones only create the entry.
    pub fn build_char_stats(buf: &TextBuffer) -> (t: Vec<(char, CharStat)>)
        ensures
            keys_distinct(t@),
            forall|k: char|
                has_key(t@, k) <==> exists|i: int|
                    0 <= i < buf.typed_chars@.len() && (#[trigger] buf.typed_chars@[i]).expected
                        == k,
            forall|j: int|
                0 <= j < t@.len() ==> (#[trigger] t@[j]).1 == char_stat_of(
                    buf.typed_chars@,
                    t@[j].0,
                ),
            forall|j: int|
                0 <= j < t@.len() ==> (#[trigger] t@[j]).1.total == t@[j].1.correct
                    + t@[j].1.incorrect,
    {
        let t = Self::build_char_stat_table(buf);
        let n = buf.typed_chars.len();
        proof {
            assert(buf.typed_chars@.len() == n);
            assert forall|j: int| 0 <= j < t@.len() implies (#[trigger] t@[j]).1.total
                == t@[j].1.correct + t@[j].1.incorrect by {
                char_counters_add_up(buf.typed_chars@, t@[j].0);
            }
        }
        t
    }

    fn build_char_stat_table(buf: &TextBuffer) -> (t: Vec<(char, CharStat)>)
        ensures
            keys_distinct(t@),
            forall|k: char|
                has_key(t@, k) <==> exists|i: int|
                    0 <= i < buf.typed_chars@.len() && (#[trigger] buf.typed_chars@[i]).expected
                        == k,
            forall|j: int|
                0 <= j < t@.len() ==> (#[trigger] t@[j]).1 == char_stat_of(
                    buf.typed_chars@,
                    t@[j].0,
                ),
    {
        let s = &buf.typed_chars;
        let mut t: Vec<(char, CharStat)> = Vec::new();
        let mut i: usize = 0;
        while i < s.len()
            invariant
                i <= s@.len(),
                keys_distinct(t@),
                forall|k: char|
                    has_key(t@, k) <==> exists|x: int|
                        0 <= x < i && (#[trigger] s@[x]).expected == k,
                forall|j: int|
                    0 <= j < t@.len() ==> (#[trigger] t@[j]).1 == char_stat_of(
                        s@.take(i as int),
                        t@[j].0,
                    ),
            decreases s@.len() - i,
        {
            let tc = s[i];
            let k = tc.expected;
            let ghost pre = s@.take(i as int);
            let ghost post = s@.take(i + 1);
            assert(post =~= pre.push(tc));
            proof {
                assert forall|kk: char, st: CharStatus| true implies count_where(
                    post,
                    expecting_with(kk, st),
                ) == count_where(pre, expecting_with(kk, st)) + if tc.expected == kk
                    && tc.status == st {
                    1nat
                } else {
                    0nat
                } by {
                    count_where_push(pre, tc, expecting_with(kk, st));
                }
                assert forall|kk: char| true implies count_where(
                    post,
                    expecting_with(kk, CharStatus::Correct),
                ) + count_where(post, expecting_with(kk, CharStatus::Incorrect)) <= post.len() by {
                    count_where_disjoint(
                        post,
                        expecting_with(kk, CharStatus::Correct),
                        expecting_with(kk, CharStatus::Incorrect),
                    );
                }
            }
            let mut j: usize = 0;
            while j < t.len() && t[j].0 != k
                invariant
                    j <= t@.len(),
                    forall|y: int| 0 <= y < j ==> (#[trigger] t@[y]).0 != k,
                decreases t@.len() - j,
            {
                j = j + 1;
            }
            if j < t.len() {
                let old_stat = t[j].1;
                let add_c: usize = if tc.status == CharStatus::Correct {
                    1
                } else {
                    0
                };
                let add_i: usize = if tc.status == CharStatus::Incorrect {
                    1
                } else {
                    0
                };
                let ghost old_t = t@;
                let new_stat = CharStat {
                    correct: old_stat.correct + add_c,
                    incorrect: old_stat.incorrect + add_i,
                    total: old_stat.total + add_c + add_i,
                };
                t.set(j, (k, new_stat));
                assert forall|y: int| 0 <= y < t@.len() implies (#[trigger] t@[y]).1
                    == char_stat_of(post, t@[y].0) by {
                    if y != j {
                        assert(t@[y] == old_t[y]);
                    }
                }
                assert forall|kk: char| has_key(t@, kk) <==> exists|x: int|
                    0 <= x < i + 1 && (#[trigger] s@[x]).expected == kk by {
                    if has_key(old_t, kk) {
                        let y = choose|y: int| 0 <= y < old_t.len() && (#[trigger] old_t[y]).0 == kk;
                        assert(t@[y].0 == kk);
                    }
                    if has_key(t@, kk) {
                        let y = choose|y: int| 0 <= y < t@.len() && (#[trigger] t@[y]).0 == kk;
                        assert(old_t[y].0 == kk);
                    }
                    if exists|x: int| 0 <= x < i + 1 && (#[trigger] s@[x]).expected == kk {
                        let x = choose|x: int| 0 <= x < i + 1 && (#[trigger] s@[x]).expected == kk;
                        if x == i {
                            assert(t@[j as int].0 == kk);
                        } else {
                            assert(has_key(old_t, kk));
                        }
                    }
                }
            } else {
                proof {
                    assert(!has_key(t@, k));
                    assert forall|x: int| 0 <= x < pre.len() implies !expecting_with(
                        k,
                        CharStatus::Correct,
                    )(#[trigger] pre[x]) by {
                        assert(pre[x] == s@[x]);
                        if s@[x].expected == k {
                            assert(has_key(t@, k));
                        }
                    }
                    count_where_none(pre, expecting_with(k, CharStatus::Correct));
                    assert forall|x: int| 0 <= x < pre.len() implies !expecting_with(
                        k,
                        CharStatus::Incorrect,
                    )(#[trigger] pre[x]) by {
                        assert(pre[x] == s@[x]);
                        if s@[x].expected == k {
                            assert(has_key(t@, k));
                        }
                    }
                    count_where_none(pre, expecting_with(k, CharStatus::Incorrect));
                }
                let add_c: usize = if tc.status == CharStatus::Correct {
                    1
                } else {
                    0
                };
                let add_i: usize = if tc.status == CharStatus::Incorrect {
                    1
                } else {
                    0
                };
                let ghost old_t = t@;
                t.push((k, CharStat { correct: add_c, incorrect: add_i, total: add_c + add_i }));
                assert forall|y: int| 0 <= y < t@.len() implies (#[trigger] t@[y]).1
                    == char_stat_of(post, t@[y].0) by {
                    if y < old_t.len() {
                        assert(t@[y] == old_t[y]);
                    }
                }
                assert forall|a: int, b: int| 0 <= a < b < t@.len() implies (#[trigger] t@[a]).0
                    != (#[trigger] t@[b]).0 by {
                    if b == old_t.len() {
                        assert(t@[a] == old_t[a]);
                    } else {
                        assert(t@[a] == old_t[a] && t@[b] == old_t[b]);
                    }
                }
                assert forall|kk: char| has_key(t@, kk) <==> exists|x: int|
                    0 <= x < i + 1 && (#[trigger] s@[x]).expected == kk by {
                    if has_key(old_t, kk) {
                        let y = choose|y: int| 0 <= y < old_t.len() && (#[trigger] old_t[y]).0 == kk;
                        assert(t@[y].0 == kk);
                    }
                    if has_key(t@, kk) {
                        let y = choose|y: int| 0 <= y < t@.len() && (#[trigger] t@[y]).0 == kk;
                        if y < old_t.len() {
                            assert(old_t[y].0 == kk);
                        } else {
                            assert(s@[i as int].expected == kk);
                        }
                    }
                    if exists|x: int| 0 <= x < i + 1 && (#[trigger] s@[x]).expected == kk {
                        let x = choose|x: int| 0 <= x < i + 1 && (#[trigger] s@[x]).expected == kk;
                        if x == i {
                            assert(t@[old_t.len() as int].0 == kk);
                        } else {
                            assert(has_key(old_t, kk));
                            let y = choose|y: int| 0 <= y < old_t.len() && (#[trigger] old_t[y]).0 == kk;
                            assert(t@[y].0 == kk);
                        }
                    }
                }
            }
            i = i + 1;
        }
        assert(s@.take(i as int) =~= s@);
        t
    }

    /// First-attempt counters per character, one entry per distinct
    /// expected character that has been attempted, in order of first
    /// appearance. The first attempt is kept through later corrections.
    pub fn build(buf: &TextBuffer) -> (t: Vec<(char, KeyHeat)>)
        ensures
            keys_distinct(t@),
            forall|k: char|
                has_key(t@, k) <==> exists|i: int|
                    0 <= i < buf.typed_chars@.len() && (#[trigger] buf.typed_chars@[i]).expected
                        == k && buf.typed_chars@[i].first_typed is Some,
            forall|j: int|
                0 <= j < t@.len() ==> (#[trigger] t@[j]).1 == key_heat_of(
                    buf.typed_chars@,
                    t@[j].0,
                ),
    {
        let s = &buf.typed_chars;
        let mut t: Vec<(char, KeyHeat)> = Vec::new();
        let mut i: usize = 0;
        while i < s.len()
            invariant
                i <= s@.len(),
                keys_distinct(t@),
                forall|k: char|
                    has_key(t@, k) <==> exists|x: int|
                        0 <= x < i && (#[trigger] s@[x]).expected == k && s@[x].first_typed is Some,
                forall|j: int|
                    0 <= j < t@.len() ==> (#[trigger] t@[j]).1 == key_heat_of(
                        s@.take(i as int),
                        t@[j].0,
                    ),
            decreases s@.len() - i,
        {
            let tc = s[i];
            let k = tc.expected;
            let ghost pre = s@.take(i as int);
            let ghost post = s@.take(i + 1);
            assert(post =~= pre.push(tc));
            proof {
                assert forall|kk: char, b: bool| true implies count_where(
                    post,
                    expecting_first(kk, b),
                ) == count_where(pre, expecting_first(kk, b)) + if tc.expected == kk
                    && tc.first_typed is Some && tc.first_correct == b {
                    1nat
                } else {
                    0nat
                } by {
                    count_where_push(pre, tc, expecting_first(kk, b));
                }
                assert forall|kk: char| true implies count_where(
                    post,
                    expecting_first(kk, true),
                ) + count_where(post, expecting_first(kk, false)) <= post.len() by {
                    count_where_disjoint(
                        post,
                        expecting_first(kk, true),
                        expecting_first(kk, false),
                    );
                }
            }
            if tc.first_typed.is_some() {
                let mut j: usize = 0;
                while j < t.len() && t[j].0 != k
                    invariant
                        j <= t@.len(),
                        forall|y: int| 0 <= y < j ==> (#[trigger] t@[y]).0 != k,
                    decreases t@.len() - j,
                {
                    j = j + 1;
                }
                if j < t.len() {
                    let old_stat = t[j].1;
                    let add_c: usize = if tc.first_correct {
                        1
                    } else {
                        0
                    };
                    let add_i: usize = if !tc.first_correct {
                        1
                    } else {
                        0
                    };
                    let ghost old_t = t@;
                    let new_stat = KeyHeat {
                        total_attempts: old_stat.total_attempts + 1,
                        correct: old_stat.correct + add_c,
                        incorrect: old_stat.incorrect + add_i,
                    };
                    t.set(j, (k, new_stat));
                    assert forall|y: int| 0 <= y < t@.len() implies (#[trigger] t@[y]).1
                        == key_heat_of(post, t@[y].0) by {
                        if y != j {
                            assert(t@[y] == old_t[y]);
                        }
                    }
                    assert forall|kk: char| has_key(t@, kk) <==> exists|x: int|
                        0 <= x < i + 1 && (#[trigger] s@[x]).expected == kk && s@[x].first_typed is Some by {
                        if has_key(old_t, kk) {
                            let y = choose|y: int| 0 <= y < old_t.len() && (#[trigger] old_t[y]).0 == kk;
                            assert(t@[y].0 == kk);
                        }
                        if has_key(t@, kk) {
                            let y = choose|y: int| 0 <= y < t@.len() && (#[trigger] t@[y]).0 == kk;
                            assert(old_t[y].0 == kk);
                        }
                        if exists|x: int| 0 <= x < i + 1 && (#[trigger] s@[x]).expected == kk && s@[x].first_typed is Some {
                            let x = choose|x: int| 0 <= x < i + 1 && (#[trigger] s@[x]).expected == kk && s@[x].first_typed is Some;
                            if x == i {
                                assert(t@[j as int].0 == kk);
                            } else {
                                assert(has_key(old_t, kk));
                            }
                        }
                    }
                } else {
                    proof {
                        assert(!has_key(t@, k));
                        assert forall|x: int| 0 <= x < pre.len() implies !expecting_first(
                            k,
                            true,
                        )(#[trigger] pre[x]) by {
                            assert(pre[x] == s@[x]);
                            if s@[x].expected == k && s@[x].first_typed is Some {
                                assert(has_key(t@, k));
                            }
                        }
                        count_where_none(pre, expecting_first(k, true));
                        assert forall|x: int| 0 <= x < pre.len() implies !expecting_first(
                            k,
                            false,
                        )(#[trigger] pre[x]) by {
                            assert(pre[x] == s@[x]);
                            if s@[x].expected == k && s@[x].first_typed is Some {
                                assert(has_key(t@, k));
                            }
                        }
                        count_where_none(pre, expecting_first(k, false));
                    }
                    let add_c: usize = if tc.first_correct {
                        1
                    } else {
                        0
                    };
                    let add_i: usize = if !tc.first_correct {
                        1
                    } else {
                        0
                    };
                    let ghost old_t = t@;
                    t.push((k, KeyHeat { total_attempts: 1, correct: add_c, incorrect: add_i }));
                    assert forall|y: int| 0 <= y < t@.len() implies (#[trigger] t@[y]).1
                        == key_heat_of(post, t@[y].0) by {
                        if y < old_t.len() {
                            assert(t@[y] == old_t[y]);
                        }
                    }
                    assert forall|a: int, b: int| 0 <= a < b < t@.len() implies (#[trigger] t@[a]).0
                        != (#[trigger] t@[b]).0 by {
                        if b == old_t.len() {
                            assert(t@[a] == old_t[a]);
                        } else {
                            assert(t@[a] == old_t[a] && t@[b] == old_t[b]);
                        }
                    }
                    assert forall|kk: char| has_key(t@, kk) <==> exists|x: int|
                        0 <= x < i + 1 && (#[trigger] s@[x]).expected == kk && s@[x].first_typed is Some by {
                        if has_key(old_t, kk) {
                            let y = choose|y: int| 0 <= y < old_t.len() && (#[trigger] old_t[y]).0 == kk;
                            assert(t@[y].0 == kk);
                        }
                        if has_key(t@, kk) {
                            let y = choose|y: int| 0 <= y < t@.len() && (#[trigger] t@[y]).0 == kk;
                            if y < old_t.len() {
                                assert(old_t[y].0 == kk);
                            } else {
                                assert(s@[i as int].expected == kk);
                            }
                        }
                        if exists|x: int| 0 <= x < i + 1 && (#[trigger] s@[x]).expected == kk && s@[x].first_typed is Some {
                            let x = choose|x: int| 0 <= x < i + 1 && (#[trigger] s@[x]).expected == kk && s@[x].first_typed is Some;
                            if x == i {
                                assert(t@[old_t.len() as int].0 == kk);
                            } else {
                                assert(has_key(old_t, kk));
                                let y = choose|y: int| 0 <= y < old_t.len() && (#[trigger] old_t[y]).0 == kk;
                                assert(t@[y].0 == kk);
                            }
                        }
                    }
                }
            }
            i = i + 1;
        }
        assert(s@.take(i as int) =~= s@);
        t
    }
}

/// Ties the live tracker to the final per-character tables.
#[derive(Debug, Clone)]
pub struct StatisticsEngine {
    pub tracker: LiveTracker,
}

impl StatisticsEngine {
    /// A fresh engine with zeroed counters.
    pub fn new() -> (e: StatisticsEngine)
        ensures
            e.tracker.counts() == (0usize, 0usize, 0usize, 0usize),
            e.tracker.start_time is None,
    {
        StatisticsEngine { tracker: LiveTracker::new() }
    }

    /// Registers one keystroke outcome with the live tracker.
    pub fn on_key_processed(&mut self, result: &TypingResult, buf: &TextBuffer)
        requires
            old(self).tracker.has_room(),
        ensures
            final(self).tracker.counts() == tracked_counts(old(self).tracker.counts(), *result),
            old(self).tracker.start_time is Some ==> final(self).tracker.start_time == old(
                self,
            ).tracker.start_time,
            old(self).tracker.start_time is None ==> final(self).tracker.start_time
                == buf.start_time,
    {
        self.tracker.on_key_processed(result, buf);
    }

    /// Live counters and the time since the first key.
    pub fn live_stats(&self, _buf: &TextBuffer) -> (l: LiveCounts)
        ensures
            l.correct_chars == self.tracker.correct_chars,
            l.incorrect_chars == self.tracker.incorrect_chars,
            l.backspaces == self.tracker.backspaces,
            self.tracker.start_time is None ==> l.elapsed_ms == 0,
    {
        LiveCounts {
            correct_chars: self.tracker.correct_chars,
            incorrect_chars: self.tracker.incorrect_chars,
            backspaces: self.tracker.backspaces,
            elapsed_ms: self.tracker.elapsed_ms(),
        }
    }

    /// Exact final counts of a test that lasted `duration_ms`.
    pub fn finalize(&self, buf: &TextBuffer, duration_ms: u64) -> (f: FinalStats)
        ensures
            stats_describe(f@, buf.typed_chars@),
            f.duration_ms == duration_ms,
    {
        FinalStats {
            correct_chars: buf.correct_chars(),
            incorrect_chars: buf.incorrect_chars(),
            backspaces: buf.backspace_count(),
            first_correct: HeatmapBuilder::count_first_correct(buf),
            first_attempts: HeatmapBuilder::count_first_attempts(buf),
            char_stats: HeatmapBuilder::build_char_stats(buf),
            heatmap: HeatmapBuilder::build(buf),
            duration_ms,
        }
    }

    /// Zeroes the counters.
    pub fn reset(&mut self)
        ensures
            final(self).tracker.counts() == (0usize, 0usize, 0usize, 0usize),
            final(self).tracker.start_time is None,
    {
        self.tracker.reset();
    }
}

} // verus!

//! Weak keys: the characters typed with errors, worst first.
//!
//! The whole-number part of the analysis is here: which characters count
//! as weak, their order and ranks, and the totals. Percentages are derived
//! from these counts by the caller.

use vstd::prelude::*;

use crate::domain::CharStat;
use crate::text::chars_of;

verus! {

/// One weak key: its character, its counters and its rank (1 = most
/// errors).
#[derive(Debug, Clone, Copy, PartialEq, Eq, Structural)]
pub struct WeakKeyCount {
    pub ch: char,
    pub error_count: usize,
    pub total: usize,
    pub correct: usize,
    pub rank: usize,
}

/// The weak keys, worst first, and the totals over every analysed
/// character.
#[derive(Debug, Clone)]
pub struct WeakKeyCounts {
    pub weak_keys: Vec<WeakKeyCount>,
    pub total_chars_analyzed: usize,
    pub total_correct: usize,
}

/// Analyses per-character counters.
pub struct WeakKeysAnalyzer;

/// The character a key string stands for: its first character, a space
/// when it is empty.
pub open spec fn key_char(key: Seq<char>) -> char {
    if key.len() > 0 {
        key[0]
    } else {
        ' '
    }
}

/// A character counts as weak when it was typed and mistyped at least once.
pub open spec fn is_weak(s: CharStat) -> bool {
    s.total > 0 && s.incorrect > 0
}

/// The weak entries of `stats`, in their order, keyed by character.
pub open spec fn weak_entries(stats: Seq<(String, CharStat)>) -> Seq<(char, CharStat)>
    decreases stats.len(),
{
    if stats.len() == 0 {
        Seq::empty()
    } else {
        let rest = weak_entries(stats.drop_last());
        if is_weak(stats.last().1) {
            rest.push((key_char(stats.last().0@), stats.last().1))
        } else {
            rest
        }
    }
}

/// Sum of the `total` counters of `stats`.
pub open spec fn sum_totals(stats: Seq<(String, CharStat)>) -> nat
    decreases stats.len(),
{
    if stats.len() == 0 {
        0
    } else {
        sum_totals(stats.drop_last()) + stats.last().1.total as nat
    }
}

/// Sum of the `correct` counters of `stats`.
pub open spec fn sum_correct(stats: Seq<(String, CharStat)>) -> nat
    decreases stats.len(),
{
    if stats.len() == 0 {
        0
    } else {
        sum_correct(stats.drop_last()) + stats.last().1.correct as nat
    }
}

/// `r` is `f` sorted by error count, most errors first, with entries of
/// equal error count kept in their order in `f`: a stable sort.
pub open spec fn stably_sorted_by_errors(r: Seq<(char, CharStat)>, f: Seq<(char, CharStat)>) -> bool {
    &&& r.len() == f.len()
    &&& forall|i: int, j: int|
        0 <= i < j < r.len() ==> (#[trigger] r[i]).1.incorrect >= (#[trigger] r[j]).1.incorrect
    &&& exists|p: Seq<int>| is_stable_placement(p, r, f)
}

/// `p` places each entry of `r` at its index in `f`, one for one, keeping
/// the order of entries with equal error counts.
pub open spec fn is_stable_placement(p: Seq<int>, r: Seq<(char, CharStat)>, f: Seq<(char, CharStat)>) -> bool {
    &&& p.len() == r.len()
    &&& forall|j: int| 0 <= j < r.len() ==> 0 <= #[trigger] p[j] < f.len() && r[j] == f[p[j]]
    &&& forall|i: int, j: int| 0 <= i < j < r.len() ==> #[trigger] p[i] != #[trigger] p[j]
    &&& forall|i: int, j: int|
        0 <= i < j < r.len() && (#[trigger] r[i]).1.incorrect == (#[trigger] r[j]).1.incorrect
            ==> p[i] < p[j]
}

/// `w` is the ranked weak key made from the `j`-th sorted entry `e`.
pub open spec fn ranked(w: WeakKeyCount, e: (char, CharStat), j: int) -> bool {
    &&& w.ch == e.0
    &&& w.error_count == e.1.incorrect
    &&& w.total == e.1.total
    &&& w.correct == e.1.correct
    &&& w.rank == j + 1
}

fn first_char_or_space(key: &String) -> (c: char)
    ensures
        c == key_char(key@),
{
    let cs = chars_of(key.as_str());
    if cs.len() > 0 {
        cs[0]
    } else {
        ' '
    }
}

impl WeakKeysAnalyzer {
    /// An analyzer.
    pub fn new() -> (a: WeakKeysAnalyzer) {
        WeakKeysAnalyzer
    }

    /// Ranks the weak keys of `char_stats` (key string, counters), most
    /// errors first and stable among equal counts, and totals the
    /// counters of every entry.
    pub fn count_weak_keys(&self, char_stats: &[(String, CharStat)]) -> (r: WeakKeyCounts)
        requires
            sum_totals(char_stats@) <= usize::MAX,
            sum_correct(char_stats@) <= usize::MAX,
        ensures
            r.total_chars_analyzed == sum_totals(char_stats@),
            r.total_correct == sum_correct(char_stats@),
            exists|s: Seq<(char, CharStat)>|
                stably_sorted_by_errors(s, weak_entries(char_stats@)) && r.weak_keys@.len()
                    == s.len() && forall|j: int|
                    0 <= j < s.len() ==> ranked(#[trigger] r.weak_keys@[j], s[j], j),
    {
        // the weak entries, in order, and the totals
        let mut f: Vec<(char, CharStat)> = Vec::new();
        let mut total: usize = 0;
        let mut correct: usize = 0;
        let mut i: usize = 0;
        while i < char_stats.len()
            invariant
                i <= char_stats@.len(),
                f@ == weak_entries(char_stats@.take(i as int)),
                total == sum_totals(char_stats@.take(i as int)),
                correct == sum_correct(char_stats@.take(i as int)),
                sum_totals(char_stats@) <= usize::MAX,
                sum_correct(char_stats@) <= usize::MAX,
            decreases char_stats.len() - i,
        {
            proof {
                assert(char_stats@.take(i + 1).drop_last() =~= char_stats@.take(i as int));
                lemma_sums_monotone(char_stats@, i + 1);
            }
            let st = char_stats[i].1;
            total = total + st.total;
            correct = correct + st.correct;
            if st.total > 0 && st.incorrect > 0 {
                let c = first_char_or_space(&char_stats[i].0);
                f.push((c, st));
            }
            i = i + 1;
        }
        assert(char_stats@.take(i as int) =~= char_stats@);
        // stable insertion sort, most errors first
        let mut s: Vec<(char, CharStat)> = Vec::new();
        let ghost mut p: Seq<int> = Seq::empty();
        let mut k: usize = 0;
        while k < f.len()
            invariant
                k <= f@.len(),
                s@.len() == k,
                forall|a: int, b: int|
                    0 <= a < b < s@.len() ==> (#[trigger] s@[a]).1.incorrect >= (
                    #[trigger] s@[b]).1.incorrect,
                p.len() == k,
                forall|j: int| 0 <= j < k ==> 0 <= #[trigger] p[j] < k && s@[j] == f@[p[j]],
                forall|a: int, b: int| 0 <= a < b < k ==> #[trigger] p[a] != #[trigger] p[b],
                forall|a: int, b: int|
                    0 <= a < b < k && (#[trigger] s@[a]).1.incorrect == (#[trigger] s@[b]).1.incorrect
                        ==> p[a] < p[b],
            decreases f.len() - k,
        {
            let e = f[k];
            let mut q: usize = 0;
            while q < s.len() && s[q].1.incorrect >= e.1.incorrect
                invariant
                    q <= s@.len(),
                    forall|j: int| 0 <= j < q ==> (#[trigger] s@[j]).1.incorrect >= e.1.incorrect,
                decreases s.len() - q,
            {
                q = q + 1;
            }
            let ghost old_s = s@;
            let ghost old_p = p;
            assert forall|j: int| q <= j < old_s.len() implies (#[trigger] old_s[j]).1.incorrect
                < e.1.incorrect by {
                if j > q {
                    assert(old_s[q as int].1.incorrect >= old_s[j].1.incorrect);
                }
            }
            s.insert(q, e);
            proof {
                p = old_p.insert(q as int, k as int);
                assert forall|j: int| 0 <= j < k + 1 implies 0 <= #[trigger] p[j] < k + 1 && s@[j]
                    == f@[p[j]] by {
                    if j < q {
                        assert(p[j] == old_p[j] && s@[j] == old_s[j]);
                    } else if j > q {
                        assert(p[j] == old_p[j - 1] && s@[j] == old_s[j - 1]);
                    }
                }
                assert forall|a: int, b: int| 0 <= a < b < k + 1 implies #[trigger] p[a]
                    != #[trigger] p[b] by {
                    if a != q && b != q {
                        let a0 = if a < q { a } else { a - 1 };
                        let b0 = if b < q { b } else { b - 1 };
                        assert(p[a] == old_p[a0] && p[b] == old_p[b0]);
                    } else if a == q {
                        assert(p[b] == old_p[b - 1]);
                    } else {
                        assert(p[a] == old_p[a]);
                    }
                }
                assert forall|a: int, b: int| 0 <= a < b < s@.len() implies (
                #[trigger] s@[a]).1.incorrect >= (#[trigger] s@[b]).1.incorrect by {
                    if a != q && b != q {
                        let a0 = if a < q { a } else { a - 1 };
                        let b0 = if b < q { b } else { b - 1 };
                        assert(s@[a] == old_s[a0] && s@[b] == old_s[b0]);
                    } else if a == q {
                        assert(s@[b] == old_s[b - 1]);
                    } else {
                        assert(s@[a] == old_s[a]);
                    }
                }
                assert forall|a: int, b: int|
                    0 <= a < b < k + 1 && (#[trigger] s@[a]).1.incorrect == (
                    #[trigger] s@[b]).1.incorrect implies p[a] < p[b] by {
                    if a != q && b != q {
                        let a0 = if a < q { a } else { a - 1 };
                        let b0 = if b < q { b } else { b - 1 };
                        assert(s@[a] == old_s[a0] && s@[b] == old_s[b0]);
                        assert(p[a] == old_p[a0] && p[b] == old_p[b0]);
                    } else if a == q {
                        assert(s@[b] == old_s[b - 1]);
                    } else {
                        assert(s@[a] == old_s[a] && p[a] == old_p[a]);
                    }
                }
            }
            k = k + 1;
        }
        assert(is_stable_placement(p, s@, f@));
        let ranked_keys = rank_entries(&s);
        assert(stably_sorted_by_errors(s@, weak_entries(char_stats@)));
        WeakKeyCounts { weak_keys: ranked_keys, total_chars_analyzed: total, total_correct: correct }
    }
}

/// The weak key of the `j`-th entry in order.
fn rank_entry(e: &(char, CharStat), j: usize) -> (w: WeakKeyCount)
    requires
        j < usize::MAX,
    ensures
        ranked(w, *e, j as int),
{
    WeakKeyCount {
        ch: e.0,
        error_count: e.1.incorrect,
        total: e.1.total,
        correct: e.1.correct,
        rank: j + 1,
    }
}

/// The entries `s`, ranked in their order.
fn rank_entries(s: &Vec<(char, CharStat)>) -> (r: Vec<WeakKeyCount>)
    ensures
        r@.len() == s@.len(),
        forall|m: int| 0 <= m < s@.len() ==> ranked(#[trigger] r@[m], s@[m], m),
{
    let mut r: Vec<WeakKeyCount> = Vec::new();
    let mut j: usize = 0;
    while j < s.len()
        invariant
            j <= s@.len(),
            r@.len() == j,
            forall|m: int| 0 <= m < j ==> ranked(#[trigger] r@[m], s@[m], m),
        decreases s.len() - j,
    {
        let w = rank_entry(&s[j], j);
        r.push(w);
        j = j + 1;
    }
    r
}

/// The sums over a prefix never exceed the sums over the whole.
proof fn lemma_sums_monotone(stats: Seq<(String, CharStat)>, n: int)
    requires
        0 <= n <= stats.len(),
    ensures
        sum_totals(stats.take(n)) <= sum_totals(stats),
        sum_correct(stats.take(n)) <= sum_correct(stats),
    decreases stats.len() - n,
{
    if n < stats.len() {
        lemma_sums_monotone(stats, n + 1);
        assert(stats.take(n + 1).drop_last() =~= stats.take(n));
    } else {
        assert(stats.take(n) =~= stats);
    }
}

} // verus!

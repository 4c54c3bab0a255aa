//! Bursts: runs of fast, correct keystrokes.
//!
//! A burst is a run of at least three consecutive correct keystrokes, each
//! at most `threshold_ms` after the previous one.

use vstd::prelude::*;

verus! {

/// Time since the previous keystroke, and whether the keystroke was right.
#[derive(Debug, Clone, Copy)]
pub struct KeystrokeInterval {
    pub interval_ms: u64,
    pub is_correct: bool,
}

/// Whole-number totals of a burst analysis; the average burst length is
/// `total_burst_chars / burst_count`.
#[derive(Debug, Clone, Copy, PartialEq, Eq, Structural)]
pub struct BurstTotals {
    pub burst_count: usize,
    pub max_burst_length: usize,
    pub total_burst_chars: usize,
}

/// A keystroke that continues a burst.
pub open spec fn is_fast(k: KeystrokeInterval, threshold_ms: u64) -> bool {
    k.is_correct && k.interval_ms <= threshold_ms
}

/// Ends the current run: a run of three or more counts as a burst.
pub open spec fn close_run(st: (nat, nat, nat, nat)) -> (nat, nat, nat, nat) {
    if st.3 >= 3 {
        (st.0 + 1, if st.1 >= st.3 {
            st.1
        } else {
            st.3
        }, st.2 + st.3, 0)
    } else {
        (st.0, st.1, st.2, 0)
    }
}

/// (bursts, longest burst, keystrokes in bursts, current run) after the
/// keystrokes `s`.
pub open spec fn burst_scan(s: Seq<KeystrokeInterval>, threshold_ms: u64) -> (nat, nat, nat, nat)
    decreases s.len(),
{
    if s.len() == 0 {
        (0, 0, 0, 0)
    } else {
        let st = burst_scan(s.drop_last(), threshold_ms);
        if is_fast(s.last(), threshold_ms) {
            (st.0, st.1, st.2, st.3 + 1)
        } else {
            close_run(st)
        }
    }
}

/// (bursts, longest burst, keystrokes in bursts) of the keystrokes `s`,
/// counting a run that is still open at the end.
pub open spec fn burst_totals_of(s: Seq<KeystrokeInterval>, threshold_ms: u64) -> (nat, nat, nat) {
    let f = close_run(burst_scan(s, threshold_ms));
    (f.0, f.1, f.2)
}

/// Keystrokes `i` up to (not including) `j` of `s` are all fast and correct.
pub open spec fn fast_run(s: Seq<KeystrokeInterval>, threshold_ms: u64, i: int, j: int) -> bool {
    &&& 0 <= i <= j <= s.len()
    &&& forall|k: int| i <= k < j ==> is_fast(#[trigger] s[k], threshold_ms)
}

proof fn lemma_fast_run_prefix(s: Seq<KeystrokeInterval>, threshold_ms: u64, i: int, j: int)
    requires
        s.len() > 0,
        j < s.len(),
    ensures
        fast_run(s, threshold_ms, i, j) == fast_run(s.drop_last(), threshold_ms, i, j),
{
    if 0 <= i <= j {
        assert forall|k: int| i <= k < j implies s[k] == s.drop_last()[k] by {}
    }
}

/// What the scan keeps track of: the open run is the trailing fast run,
/// every longer-than-two run that ended before it is no longer than the
/// longest burst so far, and the longest burst so far is a real run.
proof fn lemma_scan_runs(s: Seq<KeystrokeInterval>, threshold_ms: u64)
    ensures
        ({
            let st = burst_scan(s, threshold_ms);
            &&& st.3 <= s.len()
            &&& fast_run(s, threshold_ms, s.len() - st.3, s.len() as int)
            &&& st.3 < s.len() ==> !is_fast(s[s.len() - st.3 - 1], threshold_ms)
            &&& forall|i: int, j: int|
                #![trigger fast_run(s, threshold_ms, i, j)]
                fast_run(s, threshold_ms, i, j) && j - i >= 3 ==> j - i <= st.1 || i >= s.len()
                    - st.3
            &&& st.1 == 0 || (st.1 >= 3 && exists|i: int, j: int|
                #![trigger fast_run(s, threshold_ms, i, j)]
                fast_run(s, threshold_ms, i, j) && j - i == st.1)
        }),
    decreases s.len(),
{
    if s.len() > 0 {
        let p = s.drop_last();
        lemma_scan_runs(p, threshold_ms);
        let sp = burst_scan(p, threshold_ms);
        let st = burst_scan(s, threshold_ms);
        let n = s.len() as int;
        assert forall|k: int| 0 <= k < n - 1 implies p[k] == s[k] by {}
        if sp.1 != 0 {
            let (a, b) = choose|i: int, j: int|
                #![trigger fast_run(p, threshold_ms, i, j)]
                fast_run(p, threshold_ms, i, j) && j - i == sp.1;
            lemma_fast_run_prefix(s, threshold_ms, a, b);
        }
        if is_fast(s.last(), threshold_ms) {
            assert forall|k: int| n - st.3 <= k < n implies is_fast(#[trigger] s[k], threshold_ms) by {
                if k < n - 1 {
                    assert(p[k] == s[k]);
                }
            }
            assert forall|i: int, j: int|
                #![trigger fast_run(s, threshold_ms, i, j)]
                fast_run(s, threshold_ms, i, j) && j - i >= 3 implies j - i <= st.1 || i >= n
                    - st.3 by {
                if j < n {
                    lemma_fast_run_prefix(s, threshold_ms, i, j);
                } else if i < n - st.3 {
                    assert(is_fast(s[n - st.3 - 1], threshold_ms));
                    assert(p[n - st.3 - 1] == s[n - st.3 - 1]);
                }
            }
        } else {
            assert forall|i: int, j: int|
                #![trigger fast_run(s, threshold_ms, i, j)]
                fast_run(s, threshold_ms, i, j) && j - i >= 3 implies j - i <= st.1 || i >= n
                    - st.3 by {
                if j == n {
                    assert(!is_fast(s[n - 1], threshold_ms));
                } else {
                    lemma_fast_run_prefix(s, threshold_ms, i, j);
                }
            }
            if sp.3 >= 3 && sp.3 > sp.1 {
                lemma_fast_run_prefix(s, threshold_ms, n - 1 - sp.3, n - 1);
                assert(fast_run(s, threshold_ms, n - 1 - sp.3, n - 1));
            }
        }
    }
}

/// The longest burst is the longest run of three or more fast correct
/// keystrokes: no such run is longer, and when one exists the longest burst
/// is the length of one of them (it is 0 when none exists).
pub proof fn longest_burst_is_the_longest_run(s: Seq<KeystrokeInterval>, threshold_ms: u64)
    ensures
        forall|i: int, j: int|
            #![trigger fast_run(s, threshold_ms, i, j)]
            fast_run(s, threshold_ms, i, j) && j - i >= 3 ==> j - i <= burst_totals_of(
                s,
                threshold_ms,
            ).1,
        burst_totals_of(s, threshold_ms).1 == 0 || (burst_totals_of(s, threshold_ms).1 >= 3
            && exists|i: int, j: int|
            #![trigger fast_run(s, threshold_ms, i, j)]
            fast_run(s, threshold_ms, i, j) && j - i == burst_totals_of(s, threshold_ms).1),
{
    lemma_scan_runs(s, threshold_ms);
    let st = burst_scan(s, threshold_ms);
    let n = s.len() as int;
    if st.3 >= 3 && st.3 > st.1 {
        assert(fast_run(s, threshold_ms, n - st.3, n));
    }
}

proof fn lemma_scan_after_closed(p: Seq<KeystrokeInterval>, b: Seq<KeystrokeInterval>, threshold_ms: u64)
    requires
        burst_scan(p, threshold_ms).3 == 0,
    ensures
        ({
            let sp = burst_scan(p, threshold_ms);
            let sb = burst_scan(b, threshold_ms);
            burst_scan(p + b, threshold_ms) == (sp.0 + sb.0, if sp.1 >= sb.1 {
                sp.1
            } else {
                sb.1
            }, sp.2 + sb.2, sb.3)
        }),
    decreases b.len(),
{
    if b.len() == 0 {
        assert(p + b =~= p);
    } else {
        lemma_scan_after_closed(p, b.drop_last(), threshold_ms);
        assert((p + b).drop_last() =~= p + b.drop_last());
        assert((p + b).last() == b.last());
    }
}

proof fn lemma_scan_all_fast(s: Seq<KeystrokeInterval>, threshold_ms: u64)
    requires
        fast_run(s, threshold_ms, 0, s.len() as int),
    ensures
        burst_scan(s, threshold_ms) == (0nat, 0nat, 0nat, s.len()),
    decreases s.len(),
{
    if s.len() > 0 {
        assert forall|k: int| 0 <= k < s.len() - 1 implies is_fast(
            #[trigger] s.drop_last()[k],
            threshold_ms,
        ) by {
            assert(s.drop_last()[k] == s[k]);
        }
        lemma_scan_all_fast(s.drop_last(), threshold_ms);
        assert(is_fast(s[s.len() - 1], threshold_ms));
    }
}

/// An unbroken run of fast correct keystrokes is one burst of its own
/// length when it has three or more keystrokes, and no burst otherwise.
pub proof fn one_run_is_one_burst(s: Seq<KeystrokeInterval>, threshold_ms: u64)
    requires
        fast_run(s, threshold_ms, 0, s.len() as int),
    ensures
        burst_totals_of(s, threshold_ms) == if s.len() >= 3 {
            (1nat, s.len(), s.len())
        } else {
            (0nat, 0nat, 0nat)
        },
{
    lemma_scan_all_fast(s, threshold_ms);
}

/// A slow or wrong keystroke splits the analysis: the bursts on either side
/// of it add up, and the longest burst is the longer of the two sides'.
pub proof fn bursts_split_at_a_break(
    a: Seq<KeystrokeInterval>,
    x: KeystrokeInterval,
    b: Seq<KeystrokeInterval>,
    threshold_ms: u64,
)
    requires
        !is_fast(x, threshold_ms),
    ensures
        ({
            let ta = burst_totals_of(a, threshold_ms);
            let tb = burst_totals_of(b, threshold_ms);
            burst_totals_of(a.push(x) + b, threshold_ms) == (ta.0 + tb.0, if ta.1 >= tb.1 {
                ta.1
            } else {
                tb.1
            }, ta.2 + tb.2)
        }),
{
    assert(a.push(x).drop_last() =~= a);
    lemma_scan_after_closed(a.push(x), b, threshold_ms);
}

/// Counts the bursts in `intervals`.
pub fn burst_totals(intervals: &[KeystrokeInterval], threshold_ms: u64) -> (r: BurstTotals)
    ensures
        (r.burst_count as nat, r.max_burst_length as nat, r.total_burst_chars as nat)
            == burst_totals_of(intervals@, threshold_ms),
        3 * r.burst_count <= r.total_burst_chars,
        r.max_burst_length <= r.total_burst_chars,
        r.total_burst_chars <= intervals@.len(),
        forall|i: int, j: int|
            #![trigger fast_run(intervals@, threshold_ms, i, j)]
            fast_run(intervals@, threshold_ms, i, j) && j - i >= 3 ==> j - i <= r.max_burst_length,
        r.max_burst_length == 0 || (r.max_burst_length >= 3 && exists|i: int, j: int|
            #![trigger fast_run(intervals@, threshold_ms, i, j)]
            fast_run(intervals@, threshold_ms, i, j) && j - i == r.max_burst_length),
{
    proof {
        longest_burst_is_the_longest_run(intervals@, threshold_ms);
    }
    let mut count: usize = 0;
    let mut longest: usize = 0;
    let mut total: usize = 0;
    let mut current: usize = 0;
    let mut i: usize = 0;
    while i < intervals.len()
        invariant
            i <= intervals.len(),
            (count as nat, longest as nat, total as nat, current as nat) == burst_scan(
                intervals@.take(i as int),
                threshold_ms,
            ),
            3 * count <= total,
            longest <= total,
            total + current <= i,
        decreases intervals.len() - i,
    {
        assert(intervals@.take(i + 1).drop_last() =~= intervals@.take(i as int));
        let k = intervals[i];
        if k.is_correct && k.interval_ms <= threshold_ms {
            current = current + 1;
        } else {
            if current >= 3 {
                count = count + 1;
                if current > longest {
                    longest = current;
                }
                total = total + current;
            }
            current = 0;
        }
        i = i + 1;
    }
    assert(intervals@.take(i as int) =~= intervals@);
    if current >= 3 {
        count = count + 1;
        if current > longest {
            longest = current;
        }
        total = total + current;
    }
    BurstTotals { burst_count: count, max_burst_length: longest, total_burst_chars: total }
}

} // verus!

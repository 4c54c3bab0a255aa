//! Keystrokes tallied by the finger that types them.
//!
//! Accuracy and mean interval per finger are derived from these counts by
//! the caller.

use vstd::prelude::*;

use crate::finger_map::{finger_for, finger_for_char, Finger};

verus! {

/// Keystrokes of one finger: how many, how many right and wrong, and the
/// sum of their intervals.
#[derive(Debug, Clone, Copy, PartialEq, Eq, Structural)]
pub struct FingerTally {
    pub finger: Finger,
    pub total: usize,
    pub correct: usize,
    pub incorrect: usize,
    pub total_interval_ms: u64,
}

/// Position of a finger, left pinky first.
pub open spec fn finger_index(f: Finger) -> int {
    match f {
        Finger::LeftPinky => 0,
        Finger::LeftRing => 1,
        Finger::LeftMiddle => 2,
        Finger::LeftIndex => 3,
        Finger::LeftThumb => 4,
        Finger::RightThumb => 5,
        Finger::RightIndex => 6,
        Finger::RightMiddle => 7,
        Finger::RightRing => 8,
        Finger::RightPinky => 9,
    }
}

/// The finger at a position.
pub open spec fn finger_at(i: int) -> Finger {
    if i == 0 {
        Finger::LeftPinky
    } else if i == 1 {
        Finger::LeftRing
    } else if i == 2 {
        Finger::LeftMiddle
    } else if i == 3 {
        Finger::LeftIndex
    } else if i == 4 {
        Finger::LeftThumb
    } else if i == 5 {
        Finger::RightThumb
    } else if i == 6 {
        Finger::RightIndex
    } else if i == 7 {
        Finger::RightMiddle
    } else if i == 8 {
        Finger::RightRing
    } else {
        Finger::RightPinky
    }
}

fn finger_at_exec(i: usize) -> (f: Finger)
    requires
        i < 10,
    ensures
        f == finger_at(i as int),
        finger_index(f) == i,
{
    if i == 0 {
        Finger::LeftPinky
    } else if i == 1 {
        Finger::LeftRing
    } else if i == 2 {
        Finger::LeftMiddle
    } else if i == 3 {
        Finger::LeftIndex
    } else if i == 4 {
        Finger::LeftThumb
    } else if i == 5 {
        Finger::RightThumb
    } else if i == 6 {
        Finger::RightIndex
    } else if i == 7 {
        Finger::RightMiddle
    } else if i == 8 {
        Finger::RightRing
    } else {
        Finger::RightPinky
    }
}

fn finger_index_exec(f: Finger) -> (i: usize)
    ensures
        i == finger_index(f),
        i < 10,
        finger_at(i as int) == f,
{
    match f {
        Finger::LeftPinky => 0,
        Finger::LeftRing => 1,
        Finger::LeftMiddle => 2,
        Finger::LeftIndex => 3,
        Finger::LeftThumb => 4,
        Finger::RightThumb => 5,
        Finger::RightIndex => 6,
        Finger::RightMiddle => 7,
        Finger::RightRing => 8,
        Finger::RightPinky => 9,
    }
}

/// (keystrokes, right, wrong, interval sum) of finger `f` among the first
/// `n` keystrokes `(character, correct, interval)`.
pub open spec fn finger_tally(keys: Seq<(char, bool, u64)>, is_russian: bool, f: Finger, n: int) -> (
    nat,
    nat,
    nat,
    nat,
)
    decreases n,
{
    if n <= 0 {
        (0, 0, 0, 0)
    } else {
        let t = finger_tally(keys, is_russian, f, n - 1);
        let k = keys[n - 1];
        if finger_for(k.0, is_russian) == f {
            (t.0 + 1, if k.1 {
                t.1 + 1
            } else {
                t.1
            }, if k.1 {
                t.2
            } else {
                t.2 + 1
            }, t.3 + k.2 as nat)
        } else {
            t
        }
    }
}

/// `t` is the tally of its finger over all the keystrokes.
pub open spec fn tally_of(t: FingerTally, keys: Seq<(char, bool, u64)>, is_russian: bool) -> bool {
    (t.total as nat, t.correct as nat, t.incorrect as nat, t.total_interval_ms as nat) == finger_tally(
        keys,
        is_russian,
        t.finger,
        keys.len() as int,
    )
}

/// Tallies the keystrokes `(character, correct, interval in ms)` by the
/// finger that types each character: one entry per finger used, most
/// keystrokes first.
#[verifier::rlimit(60)]
pub fn finger_tallies(keystrokes: &[(char, bool, u64)], is_russian: bool) -> (r: Vec<FingerTally>)
    requires
        forall|f: Finger| #[trigger]
            finger_tally(keystrokes@, is_russian, f, keystrokes@.len() as int).3 <= u64::MAX,
    ensures
        forall|i: int| 0 <= i < r@.len() ==> tally_of(#[trigger] r@[i], keystrokes@, is_russian) && r@[i].total > 0,
        forall|i: int, j: int| 0 <= i < j < r@.len() ==> (#[trigger] r@[i]).total >= (#[trigger] r@[j]).total,
        forall|i: int, j: int| 0 <= i < j < r@.len() ==> (#[trigger] r@[i]).finger != (#[trigger] r@[j]).finger,
        forall|f: Finger|
            finger_tally(keystrokes@, is_russian, f, keystrokes@.len() as int).0 > 0 ==> exists|i: int|
                0 <= i < r@.len() && (#[trigger] r@[i]).finger == f,
{
    let mut tallies: Vec<FingerTally> = Vec::new();
    let mut k: usize = 0;
    while k < 10
        invariant
            k <= 10,
            tallies@.len() == k,
            forall|j: int| 0 <= j < k ==> (#[trigger] tallies@[j]) == (FingerTally {
                finger: finger_at(j),
                total: 0,
                correct: 0,
                incorrect: 0,
                total_interval_ms: 0,
            }),
        decreases 10 - k,
    {
        tallies.push(FingerTally { finger: finger_at_exec(k), total: 0, correct: 0, incorrect: 0, total_interval_ms: 0 });
        k = k + 1;
    }
    let mut i: usize = 0;
    while i < keystrokes.len()
        invariant
            i <= keystrokes@.len(),
            tallies@.len() == 10,
            forall|j: int| 0 <= j < 10 ==> (#[trigger] tallies@[j]).finger == finger_at(j)
                && (tallies@[j].total as nat, tallies@[j].correct as nat, tallies@[j].incorrect as nat, tallies@[j].total_interval_ms as nat)
                    == finger_tally(keystrokes@, is_russian, finger_at(j), i as int),
            forall|j: int| 0 <= j < 10 ==> (#[trigger] tallies@[j]).total <= i
                && tallies@[j].correct + tallies@[j].incorrect == tallies@[j].total,
            forall|f: Finger| #[trigger]
                finger_tally(keystrokes@, is_russian, f, keystrokes@.len() as int).3 <= u64::MAX,
        decreases keystrokes.len() - i,
    {
        let (ch, ok, interval) = keystrokes[i];
        let f = finger_for_char(ch, is_russian);
        let x = finger_index_exec(f);
        proof {
            lemma_tally_monotone(keystrokes@, is_russian, f, i + 1);
        }
        let old_t = tallies[x];
        let t = FingerTally {
            finger: old_t.finger,
            total: old_t.total + 1,
            correct: if ok { old_t.correct + 1 } else { old_t.correct },
            incorrect: if ok { old_t.incorrect } else { old_t.incorrect + 1 },
            total_interval_ms: old_t.total_interval_ms + interval,
        };
        tallies.set(x, t);
        i = i + 1;
    }
    // the used fingers, most keystrokes first
    let mut r: Vec<FingerTally> = Vec::new();
    let mut x: usize = 0;
    while x < 10
        invariant
            x <= 10,
            tallies@.len() == 10,
            forall|j: int| 0 <= j < 10 ==> (#[trigger] tallies@[j]).finger == finger_at(j) && tally_of(
                tallies@[j],
                keystrokes@,
                is_russian,
            ),
            forall|a: int| 0 <= a < r@.len() ==> tally_of(#[trigger] r@[a], keystrokes@, is_russian) && r@[a].total > 0
                && finger_index(r@[a].finger) < x,
            forall|a: int, b: int| 0 <= a < b < r@.len() ==> (#[trigger] r@[a]).total >= (#[trigger] r@[b]).total,
            forall|a: int, b: int| 0 <= a < b < r@.len() ==> (#[trigger] r@[a]).finger != (#[trigger] r@[b]).finger,
            forall|j: int|
                0 <= j < x && (#[trigger] tallies@[j]).total > 0 ==> exists|a: int|
                    0 <= a < r@.len() && (#[trigger] r@[a]).finger == finger_at(j),
        decreases 10 - x,
    {
        let t = tallies[x];
        if t.total > 0 {
            let mut q: usize = 0;
            while q < r.len() && r[q].total >= t.total
                invariant
                    q <= r@.len(),
                    forall|a: int| 0 <= a < q ==> (#[trigger] r@[a]).total >= t.total,
                decreases r.len() - q,
            {
                q = q + 1;
            }
            let ghost old_r = r@;
            assert forall|a: int| q <= a < old_r.len() implies (#[trigger] old_r[a]).total < t.total by {
                if a > q {
                    assert(old_r[q as int].total >= old_r[a].total);
                }
            }
            r.insert(q, t);
            proof {
                assert forall|a: int| 0 <= a < r@.len() implies tally_of(#[trigger] r@[a], keystrokes@, is_russian)
                    && r@[a].total > 0 && finger_index(r@[a].finger) < x + 1 by {
                    if a < q {
                        assert(r@[a] == old_r[a]);
                    } else if a > q {
                        assert(r@[a] == old_r[a - 1]);
                    }
                }
                assert forall|a: int, b: int| 0 <= a < b < r@.len() implies (#[trigger] r@[a]).total
                    >= (#[trigger] r@[b]).total by {
                    if a != q && b != q {
                        let a0 = if a < q { a } else { a - 1 };
                        let b0 = if b < q { b } else { b - 1 };
                        assert(r@[a] == old_r[a0] && r@[b] == old_r[b0]);
                    } else if a == q {
                        assert(r@[b] == old_r[b - 1]);
                    } else {
                        assert(r@[a] == old_r[a]);
                    }
                }
                assert forall|a: int, b: int| 0 <= a < b < r@.len() implies (#[trigger] r@[a]).finger
                    != (#[trigger] r@[b]).finger by {
                    if a != q && b != q {
                        let a0 = if a < q { a } else { a - 1 };
                        let b0 = if b < q { b } else { b - 1 };
                        assert(r@[a] == old_r[a0] && r@[b] == old_r[b0]);
                    } else if a == q {
                        assert(r@[b] == old_r[b - 1]);
                    } else {
                        assert(r@[a] == old_r[a]);
                    }
                }
                assert forall|j: int|
                    0 <= j < x + 1 && (#[trigger] tallies@[j]).total > 0 implies exists|a: int|
                        0 <= a < r@.len() && (#[trigger] r@[a]).finger == finger_at(j) by {
                    if j == x {
                        assert(r@[q as int].finger == finger_at(j));
                    } else {
                        let a = choose|a: int| 0 <= a < old_r.len() && (#[trigger] old_r[a]).finger == finger_at(j);
                        if a < q {
                            assert(r@[a] == old_r[a]);
                        } else {
                            assert(r@[a + 1] == old_r[a]);
                        }
                    }
                }
            }
        }
        x = x + 1;
    }
    proof {
        assert forall|f: Finger|
            finger_tally(keystrokes@, is_russian, f, keystrokes@.len() as int).0 > 0 implies exists|a: int|
                0 <= a < r@.len() && (#[trigger] r@[a]).finger == f by {
            let j = finger_index(f);
            assert(tallies@[j].finger == f);
        }
    }
    r
}

/// A finger's interval sum over a prefix never exceeds its sum over all the
/// keystrokes, nor does its count exceed the prefix length.
proof fn lemma_tally_monotone(keys: Seq<(char, bool, u64)>, is_russian: bool, f: Finger, n: int)
    requires
        0 <= n <= keys.len(),
    ensures
        finger_tally(keys, is_russian, f, n).3 <= finger_tally(keys, is_russian, f, keys.len() as int).3,
        finger_tally(keys, is_russian, f, n).0 <= n,
    decreases keys.len() - n,
{
    if n < keys.len() {
        lemma_tally_monotone(keys, is_russian, f, n + 1);
    }
    lemma_tally_count(keys, is_russian, f, n);
}

proof fn lemma_tally_count(keys: Seq<(char, bool, u64)>, is_russian: bool, f: Finger, n: int)
    requires
        0 <= n,
    ensures
        finger_tally(keys, is_russian, f, n).0 <= n,
        finger_tally(keys, is_russian, f, n).1 + finger_tally(keys, is_russian, f, n).2 == finger_tally(keys, is_russian, f, n).0,
    decreases n,
{
    if n > 0 {
        lemma_tally_count(keys, is_russian, f, n - 1);
    }
}

} // verus!

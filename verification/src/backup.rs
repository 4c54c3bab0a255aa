//! Where backups live, how pre-migration snapshots are named, and which
//! of them rotation deletes. Taking and restoring backups is file and
//! database work done outside the library.

use vstd::prelude::*;

use crate::domain::UtcTimestamp;
use crate::text::{append_str, chars_of, string_from_chars, lemma_lex_asymmetric, lemma_lex_total, lemma_lex_transitive, lex_lt, str_less};

verus! {

/// Suffix for timestamped pre-migration backups inside the rotation directory.
pub const PREMIGRATION_SUFFIX: &'static str = ".premigration.db";

/// Directory holding the rotating pre-migration snapshots, relative to the
/// application data directory.
pub const BACKUP_DIR_NAME: &'static str = "backups";

/// Default number of snapshots kept by rotation.
pub const DEFAULT_KEEP: usize = 5;

/// The path `Path::join` gives for `base` with `name` appended as a
/// component.
pub uninterp spec fn joined_path(base: &std::path::Path, name: Seq<char>) -> std::path::PathBuf;

/// `Path::join`: `base` with `name` appended as a component. Paths are
/// opaque to this library, so the contract names the joined path.
#[verifier::external_body]
fn path_join(base: &std::path::Path, name: &str) -> (r: std::path::PathBuf)
    ensures
        r == joined_path(base, name@),
{
    base.join(name)
}

/// The backup rotation directory of a data directory: its `backups`
/// subdirectory.
pub fn backup_rotation_dir(data_dir: &std::path::Path) -> (r: std::path::PathBuf)
    ensures
        r == joined_path(data_dir, BACKUP_DIR_NAME@),
{
    path_join(data_dir, BACKUP_DIR_NAME)
}

// ── Snapshot names ──

/// The compact UTC stamp `YYYYMMDDTHHMMSSZ` that chrono formats for the
/// instant `seconds` + `nanos` after the Unix epoch; `None` when the instant
/// is outside chrono's range.
pub uninterp spec fn compact_utc_stamp(seconds: i64, nanos: u32) -> Option<Seq<char>>;

/// Formats the instant with `chrono::DateTime::<Utc>::from_timestamp` and
/// `format("%Y%m%dT%H%M%SZ")`. The contract names the text: the calendar is
/// chrono's.
#[verifier::external_body]
fn format_compact_utc(seconds: i64, nanos: u32) -> (r: Option<String>)
    ensures
        match r {
            Some(s) => compact_utc_stamp(seconds, nanos) == Some(s@),
            None => compact_utc_stamp(seconds, nanos) is None,
        },
{
    chrono::DateTime::<chrono::Utc>::from_timestamp(seconds, nanos).map(
        |t| t.format("%Y%m%dT%H%M%SZ").to_string(),
    )
}

/// File name of a pre-migration snapshot taken at `timestamp`:
/// `<prefix>-<YYYYMMDDTHHMMSSZ>.premigration.db`, whose lexicographic order
/// is chronological; `None` when the timestamp cannot be formatted.
pub fn premigration_backup_filename(prefix: &str, timestamp: UtcTimestamp) -> (r: Option<String>)
    ensures
        match compact_utc_stamp(timestamp.seconds, timestamp.nanos) {
            Some(stamp) => r matches Some(name) && name@ == prefix@ + "-"@ + stamp
                + PREMIGRATION_SUFFIX@,
            None => r is None,
        },
{
    match format_compact_utc(timestamp.seconds, timestamp.nanos) {
        None => None,
        Some(stamp) => {
            let mut name = chars_of(prefix);
            append_str(&mut name, "-");
            append_str(&mut name, stamp.as_str());
            append_str(&mut name, PREMIGRATION_SUFFIX);
            Some(string_from_chars(name.as_slice()))
        },
    }
}

// ── Rotation ──

/// A pre-migration snapshot is a file whose name ends with the suffix.
pub open spec fn is_snapshot_name(name: Seq<char>) -> bool {
    name.len() >= PREMIGRATION_SUFFIX@.len() && name.subrange(
        name.len() - PREMIGRATION_SUFFIX@.len(),
        name.len() as int,
    ) == PREMIGRATION_SUFFIX@
}

/// The snapshot names among `names`, in their order.
pub open spec fn snapshot_names(names: Seq<String>) -> Seq<Seq<char>>
    decreases names.len(),
{
    if names.len() == 0 {
        Seq::empty()
    } else if is_snapshot_name(names.last()@) {
        snapshot_names(names.drop_last()).push(names.last()@)
    } else {
        snapshot_names(names.drop_last())
    }
}

/// `s` is in non-decreasing lexicographic order.
pub open spec fn lex_sorted(s: Seq<Seq<char>>) -> bool {
    forall|i: int, j: int| 0 <= i < j < s.len() ==> !lex_lt(#[trigger] s[j], #[trigger] s[i])
}

/// `p` places the elements of `s` one for one at positions of `t`.
pub open spec fn is_rearrangement(p: Seq<int>, s: Seq<Seq<char>>, t: Seq<Seq<char>>) -> bool {
    &&& p.len() == s.len() && s.len() == t.len()
    &&& forall|j: int| 0 <= j < s.len() ==> 0 <= #[trigger] p[j] < t.len() && s[j] == t[p[j]]
    &&& forall|i: int, j: int| 0 <= i < j < s.len() ==> #[trigger] p[i] != #[trigger] p[j]
}

fn ends_with_suffix(name: &str) -> (b: bool)
    ensures
        b == is_snapshot_name(name@),
{
    let cs = chars_of(name);
    let suffix = chars_of(PREMIGRATION_SUFFIX);
    if cs.len() < suffix.len() {
        return false;
    }
    let start = cs.len() - suffix.len();
    let mut i: usize = 0;
    while i < suffix.len()
        invariant
            i <= suffix@.len(),
            start + suffix@.len() == cs@.len(),
            suffix@.len() == suffix.len() && cs@.len() == cs.len(),
            cs@ == name@ && suffix@ == PREMIGRATION_SUFFIX@,
            forall|k: int| 0 <= k < i ==> cs@[start + k] == suffix@[k],
        decreases suffix.len() - i,
    {
        if cs[start + i] != suffix[i] {
            assert(name@.subrange(start as int, name@.len() as int)[i as int] != suffix@[i as int]);
            return false;
        }
        i = i + 1;
    }
    assert(name@.subrange(start as int, name@.len() as int) =~= PREMIGRATION_SUFFIX@);
    true
}

/// The snapshots that rotation deletes so that at most `keep` remain: the
/// oldest, that is the first names in lexicographic order. `names` are the
/// file names found in the rotation directory; other files are never
/// selected.
pub fn snapshots_to_delete(names: &[String], keep: usize) -> (r: Vec<String>)
    ensures
        exists|sorted: Seq<Seq<char>>, p: Seq<int>|
            lex_sorted(sorted) && is_rearrangement(p, sorted, snapshot_names(names@)) && r@.len()
                == (if sorted.len() > keep {
                sorted.len() - keep
            } else {
                0
            }) && forall|j: int| 0 <= j < r@.len() ==> (#[trigger] r@[j])@ == sorted[j],
{
    // the snapshot names, in order
    let mut f: Vec<&String> = Vec::new();
    let mut i: usize = 0;
    while i < names.len()
        invariant
            i <= names@.len(),
            f@.len() == snapshot_names(names@.take(i as int)).len(),
            forall|k: int| 0 <= k < f@.len() ==> (#[trigger] f@[k])@ == snapshot_names(names@.take(i as int))[k],
        decreases names.len() - i,
    {
        proof {
            assert(names@.take(i + 1).drop_last() =~= names@.take(i as int));
            assert(names@.take(i + 1).last() == names@[i as int]);
        }
        if ends_with_suffix(names[i].as_str()) {
            f.push(&names[i]);
        }
        i = i + 1;
    }
    assert(names@.take(i as int) =~= names@);
    let ghost t = snapshot_names(names@);
    // insertion sort, oldest first
    let mut s: Vec<&String> = Vec::new();
    let ghost mut p: Seq<int> = Seq::empty();
    let mut k: usize = 0;
    while k < f.len()
        invariant
            k <= f@.len(),
            f@.len() == t.len(),
            forall|j: int| 0 <= j < f@.len() ==> (#[trigger] f@[j])@ == t[j],
            s@.len() == k,
            p.len() == k,
            forall|a: int, b: int|
                0 <= a < b < s@.len() ==> !lex_lt((#[trigger] s@[b])@, (#[trigger] s@[a])@),
            forall|j: int| 0 <= j < k ==> 0 <= #[trigger] p[j] < k && s@[j]@ == t[p[j]],
            forall|a: int, b: int| 0 <= a < b < k ==> #[trigger] p[a] != #[trigger] p[b],
        decreases f.len() - k,
    {
        let x = f[k];
        let mut q: usize = 0;
        while q < s.len() && !str_less(x.as_str(), s[q].as_str())
            invariant
                q <= s@.len(),
                forall|j: int| 0 <= j < q ==> !lex_lt(x@, (#[trigger] s@[j])@),
            decreases s.len() - q,
        {
            q = q + 1;
        }
        let ghost old_s = s@;
        let ghost old_p = p;
        proof {
            assert forall|j: int| q <= j < old_s.len() implies lex_lt(x@, (#[trigger] old_s[j])@) by {
                if j > q {
                    lemma_lex_total(old_s[q as int]@, old_s[j]@);
                    if lex_lt(old_s[q as int]@, old_s[j]@) {
                        lemma_lex_transitive(x@, old_s[q as int]@, old_s[j]@);
                    } else {
                        assert(old_s[q as int]@ =~= old_s[j]@);
                    }
                }
            }
        }
        s.insert(q, x);
        proof {
            p = old_p.insert(q as int, k as int);
            assert forall|j: int| 0 <= j < k + 1 implies 0 <= #[trigger] p[j] < k + 1 && s@[j]@
                == t[p[j]] by {
                if j < q {
                    assert(p[j] == old_p[j] && s@[j] == old_s[j]);
                } else if j > q {
                    assert(p[j] == old_p[j - 1] && s@[j] == old_s[j - 1]);
                }
            }
            assert forall|a: int, b: int| 0 <= a < b < k + 1 implies #[trigger] p[a]
                != #[trigger] p[b] by {
                if a != q && b != q {
                    let a0 = if a < q { a } else { a - 1 };
                    let b0 = if b < q { b } else { b - 1 };
                    assert(p[a] == old_p[a0] && p[b] == old_p[b0]);
                } else if a == q {
                    assert(p[b] == old_p[b - 1]);
                } else {
                    assert(p[a] == old_p[a]);
                }
            }
            assert forall|a: int, b: int| 0 <= a < b < s@.len() implies !lex_lt(
                (#[trigger] s@[b])@,
                (#[trigger] s@[a])@,
            ) by {
                if a != q && b != q {
                    let a0 = if a < q { a } else { a - 1 };
                    let b0 = if b < q { b } else { b - 1 };
                    assert(s@[a] == old_s[a0] && s@[b] == old_s[b0]);
                } else if a == q {
                    assert(s@[b] == old_s[b - 1]);
                    lemma_lex_asymmetric(x@, old_s[b - 1]@);
                } else {
                    assert(s@[a] == old_s[a]);
                }
            }
        }
        k = k + 1;
    }
    let ghost sorted = Seq::new(s@.len(), |j: int| s@[j]@);
    assert(is_rearrangement(p, sorted, t));
    assert(lex_sorted(sorted));
    // the oldest beyond `keep`
    let excess = s.len().saturating_sub(keep);
    let mut r: Vec<String> = Vec::new();
    let mut j: usize = 0;
    while j < excess
        invariant
            j <= excess <= s@.len(),
            r@.len() == j,
            forall|m: int| 0 <= m < j ==> (#[trigger] r@[m])@ == s@[m]@,
        decreases excess - j,
    {
        r.push(s[j].clone());
        j = j + 1;
    }
    r
}

} // verus!

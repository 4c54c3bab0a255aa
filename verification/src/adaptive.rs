//! Adaptive practice text: words that exercise the keys a typist gets wrong.

use vstd::prelude::*;

use crate::text::{append_chars, chars_of, join_seqs, lemma_join_step, string_from_chars};

verus! {

/// Builds practice text from a word list, preferring words that contain the
/// weak characters.
pub struct FrequencyAdaptiveGenerator {
    pub word_list: Vec<String>,
}

/// The character sequences of a word list.
pub open spec fn word_views(words: Seq<String>) -> Seq<Seq<char>> {
    words.map_values(|w: String| w@)
}

/// The word holds at least one of the target characters.
pub open spec fn contains_any(word: Seq<char>, targets: Seq<char>) -> bool {
    exists|i: int| 0 <= i < word.len() && targets.contains(#[trigger] word[i])
}

/// The words holding at least one target character, in order.
pub open spec fn words_with_targets(words: Seq<Seq<char>>, targets: Seq<char>) -> Seq<Seq<char>>
    decreases words.len(),
{
    if words.len() == 0 {
        Seq::empty()
    } else if contains_any(words.last(), targets) {
        words_with_targets(words.drop_last(), targets).push(words.last())
    } else {
        words_with_targets(words.drop_last(), targets)
    }
}

/// How many characters of the word are targets.
pub open spec fn target_score(word: Seq<char>, targets: Seq<char>) -> nat
    decreases word.len(),
{
    if word.len() == 0 {
        0
    } else {
        target_score(word.drop_last(), targets) + if targets.contains(word.last()) {
            1nat
        } else {
            0nat
        }
    }
}

/// Index of the first word with the highest score, leaving out index
/// `skip`; -1 when no word is left. This is the word a stable sort by
/// descending score puts first among the others.
pub open spec fn best_index(words: Seq<Seq<char>>, targets: Seq<char>, skip: int) -> int
    decreases words.len(),
{
    if words.len() == 0 {
        -1
    } else {
        let b = best_index(words.drop_last(), targets, skip);
        let j = words.len() - 1;
        if j == skip {
            b
        } else if b < 0 || target_score(words[j], targets) > target_score(words[b], targets) {
            j
        } else {
            b
        }
    }
}

/// The practice text: without weak characters, the first `word_count`
/// words; otherwise, among the words holding a weak character (all words
/// when none does), the best and the second-best scored words alternate
/// (the best alone when there is one word); with no words at all, the weak
/// characters themselves. Words are separated by spaces.
pub open spec fn practice_text(words: Seq<Seq<char>>, weak: Seq<char>, word_count: nat) -> Seq<char> {
    if weak.len() == 0 {
        join_seqs(words.take(if word_count < words.len() { word_count as int } else { words.len() as int }), " "@)
    } else {
        let filtered = words_with_targets(words, weak);
        let source = if filtered.len() == 0 {
            words
        } else {
            filtered
        };
        if source.len() == 0 {
            join_seqs(weak.map_values(|c: char| seq![c]), " "@)
        } else {
            let first = best_index(source, weak, -1);
            let second = best_index(source, weak, first);
            join_seqs(
                Seq::new(
                    word_count,
                    |k: int|
                        if source.len() > 1 && k % 2 == 1 {
                            source[second]
                        } else {
                            source[first]
                        },
                ),
                " "@,
            )
        }
    }
}

proof fn lemma_best_index_range(words: Seq<Seq<char>>, targets: Seq<char>, skip: int)
    ensures
        -1 <= best_index(words, targets, skip) < words.len(),
        best_index(words, targets, skip) != skip || skip == -1,
        best_index(words, targets, skip) == -1 <==> (words.len() == 0 || (words.len() == 1 && skip
            == 0)),
    decreases words.len(),
{
    if words.len() > 0 {
        lemma_best_index_range(words.drop_last(), targets, skip);
    }
}

proof fn lemma_words_with_targets(words: Seq<Seq<char>>, targets: Seq<char>)
    ensures
        forall|k: int|
            0 <= k < words_with_targets(words, targets).len() ==> contains_any(
                #[trigger] words_with_targets(words, targets)[k],
                targets,
            ) && words.contains(words_with_targets(words, targets)[k]),
        (exists|i: int| 0 <= i < words.len() && contains_any(#[trigger] words[i], targets))
            ==> words_with_targets(words, targets).len() > 0,
        forall|i: int|
            0 <= i < words.len() && contains_any(#[trigger] words[i], targets)
                ==> words_with_targets(words, targets).contains(words[i]),
    decreases words.len(),
{
    if words.len() > 0 {
        let p = words.drop_last();
        lemma_words_with_targets(p, targets);
        let f = words_with_targets(words, targets);
        let fp = words_with_targets(p, targets);
        assert forall|k: int| 0 <= k < f.len() implies contains_any(#[trigger] f[k], targets)
            && words.contains(f[k]) by {
            if k < fp.len() {
                assert(f[k] == fp[k]);
                let x = choose|x: int| 0 <= x < p.len() && p[x] == fp[k];
                assert(words[x] == p[x]);
            } else {
                assert(f[k] == words[words.len() - 1]);
            }
        }
        if exists|i: int| 0 <= i < words.len() && contains_any(#[trigger] words[i], targets) {
            let i = choose|i: int| 0 <= i < words.len() && contains_any(#[trigger] words[i], targets);
            if i < words.len() - 1 {
                assert(p[i] == words[i]);
            }
        }
        assert forall|i: int|
            0 <= i < words.len() && contains_any(#[trigger] words[i], targets) implies f.contains(
            words[i],
        ) by {
            if i < words.len() - 1 {
                assert(p[i] == words[i]);
                let m = choose|m: int| 0 <= m < fp.len() && fp[m] == p[i];
                assert(f[m] == fp[m]);
            } else {
                assert(f[f.len() - 1] == words[i]);
            }
        }
    }
}

proof fn lemma_best_index_max(words: Seq<Seq<char>>, targets: Seq<char>, skip: int)
    ensures
        best_index(words, targets, skip) >= 0 ==> forall|j: int|
            0 <= j < words.len() && j != skip ==> target_score(#[trigger] words[j], targets)
                <= target_score(words[best_index(words, targets, skip)], targets),
    decreases words.len(),
{
    if words.len() > 0 {
        let p = words.drop_last();
        lemma_best_index_max(p, targets, skip);
        lemma_best_index_range(p, targets, skip);
        lemma_best_index_range(words, targets, skip);
        let b = best_index(p, targets, skip);
        if b >= 0 {
            assert(words[b] == p[b]);
        }
        assert forall|j: int| 0 <= j < p.len() implies p[j] == #[trigger] words[j] by {}
    }
}

proof fn lemma_score_without_targets(word: Seq<char>, targets: Seq<char>)
    requires
        !contains_any(word, targets),
    ensures
        target_score(word, targets) == 0,
    decreases word.len(),
{
    if word.len() > 0 {
        let p = word.drop_last();
        assert forall|i: int| 0 <= i < p.len() implies !targets.contains(#[trigger] p[i]) by {
            assert(p[i] == word[i]);
        }
        lemma_score_without_targets(p, targets);
        assert(!targets.contains(word[word.len() - 1]));
    }
}

/// When some word of the list holds a weak character, the practice text is
/// `word_count` words of the list joined by spaces, each holding at least
/// one weak character, and the first of them has as many weak characters
/// as any word of the list.
pub proof fn practice_words_hold_weak_chars(words: Seq<Seq<char>>, weak: Seq<char>, word_count: nat)
    requires
        weak.len() > 0,
        exists|i: int| 0 <= i < words.len() && contains_any(#[trigger] words[i], weak),
    ensures
        exists|ws: Seq<Seq<char>>|
            #![trigger join_seqs(ws, " "@)]
            ws.len() == word_count && practice_text(words, weak, word_count) == join_seqs(ws, " "@)
                && (forall|k: int|
                0 <= k < ws.len() ==> contains_any(#[trigger] ws[k], weak) && words.contains(
                    ws[k],
                )) && (ws.len() > 0 ==> forall|i: int|
                0 <= i < words.len() ==> target_score(#[trigger] words[i], weak) <= target_score(
                    ws[0],
                    weak,
                )),
{
    lemma_words_with_targets(words, weak);
    let src = words_with_targets(words, weak);
    lemma_best_index_range(src, weak, -1);
    let first = best_index(src, weak, -1);
    lemma_best_index_range(src, weak, first);
    let second = best_index(src, weak, first);
    let ws = Seq::new(
        word_count,
        |k: int|
            if src.len() > 1 && k % 2 == 1 {
                src[second]
            } else {
                src[first]
            },
    );
    assert forall|k: int| 0 <= k < ws.len() implies contains_any(#[trigger] ws[k], weak)
        && words.contains(ws[k]) by {
        if src.len() > 1 && k % 2 == 1 {
            assert(ws[k] == src[second]);
        } else {
            assert(ws[k] == src[first]);
        }
    }
    assert(practice_text(words, weak, word_count) == join_seqs(ws, " "@));
    if ws.len() > 0 {
        lemma_best_index_max(src, weak, -1);
        assert(ws[0] == src[first]);
        assert forall|i: int| 0 <= i < words.len() implies target_score(#[trigger] words[i], weak)
            <= target_score(ws[0], weak) by {
            if contains_any(words[i], weak) {
                let m = choose|m: int| 0 <= m < src.len() && src[m] == words[i];
                assert(target_score(src[m], weak) <= target_score(src[first], weak));
            } else {
                lemma_score_without_targets(words[i], weak);
            }
        }
    }
}

fn has_char(cs: &[char], c: char) -> (b: bool)
    ensures
        b == cs@.contains(c),
{
    let mut i: usize = 0;
    while i < cs.len()
        invariant
            i <= cs.len(),
            forall|j: int| 0 <= j < i ==> cs@[j] != c,
        decreases cs.len() - i,
    {
        if cs[i] == c {
            assert(cs@[i as int] == c);
            return true;
        }
        i = i + 1;
    }
    false
}

fn score_of(word: &Vec<char>, targets: &[char]) -> (n: usize)
    ensures
        n == target_score(word@, targets@),
{
    let mut n: usize = 0;
    let mut i: usize = 0;
    while i < word.len()
        invariant
            i <= word.len(),
            n <= i,
            n == target_score(word@.take(i as int), targets@),
        decreases word.len() - i,
    {
        assert(word@.take(i + 1).drop_last() =~= word@.take(i as int));
        if has_char(targets, word[i]) {
            n = n + 1;
        }
        i = i + 1;
    }
    assert(word@.take(word.len() as int) =~= word@);
    n
}

fn holds_any(word: &Vec<char>, targets: &[char]) -> (b: bool)
    ensures
        b == contains_any(word@, targets@),
{
    let mut i: usize = 0;
    while i < word.len()
        invariant
            i <= word.len(),
            forall|j: int| 0 <= j < i ==> !targets@.contains(#[trigger] word@[j]),
        decreases word.len() - i,
    {
        if has_char(targets, word[i]) {
            return true;
        }
        i = i + 1;
    }
    false
}

/// Joins the parts with single spaces.
fn join_words(parts: &Vec<Vec<char>>) -> (r: Vec<char>)
    ensures
        r@ == join_seqs(parts@.map_values(|p: Vec<char>| p@), " "@),
{
    let ghost ps = parts@.map_values(|p: Vec<char>| p@);
    let sep = chars_of(" ");
    let mut out: Vec<char> = Vec::new();
    let mut k: usize = 0;
    while k < parts.len()
        invariant
            k <= parts.len(),
            ps == parts@.map_values(|p: Vec<char>| p@),
            sep@ == " "@,
            out@ == join_seqs(ps.take(k as int), " "@),
        decreases parts.len() - k,
    {
        proof {
            lemma_join_step(ps, " "@, k as int);
        }
        if k > 0 {
            append_chars(&mut out, sep.as_slice());
        }
        append_chars(&mut out, parts[k].as_slice());
        k = k + 1;
    }
    assert(ps.take(parts.len() as int) =~= ps);
    out
}

impl FrequencyAdaptiveGenerator {
    /// A generator over `word_list`.
    pub fn new(word_list: Vec<String>) -> (g: FrequencyAdaptiveGenerator)
        ensures
            g.word_list@ == word_list@,
    {
        FrequencyAdaptiveGenerator { word_list }
    }

    /// A generator over a word list supplied by the caller.
    pub fn from_word_list(words: Vec<String>) -> (g: FrequencyAdaptiveGenerator)
        ensures
            g.word_list@ == words@,
    {
        Self::new(words)
    }

    /// The words of the list holding at least one weak character.
    pub fn filter_words_by_chars(&self, weak_chars: &[char]) -> (r: Vec<String>)
        ensures
            word_views(r@) == words_with_targets(word_views(self.word_list@), weak_chars@),
    {
        let ghost words = word_views(self.word_list@);
        let mut out: Vec<String> = Vec::new();
        let mut i: usize = 0;
        while i < self.word_list.len()
            invariant
                i <= self.word_list.len(),
                words == word_views(self.word_list@),
                word_views(out@) == words_with_targets(words.take(i as int), weak_chars@),
            decreases self.word_list.len() - i,
        {
            assert(words.take(i + 1).drop_last() =~= words.take(i as int));
            assert(words[i as int] == self.word_list@[i as int]@);
            let w = chars_of(self.word_list[i].as_str());
            if holds_any(&w, weak_chars) {
                let ghost before = word_views(out@);
                out.push(self.word_list[i].clone());
                assert(word_views(out@) =~= before.push(self.word_list@[i as int]@));
            }
            i = i + 1;
        }
        assert(words.take(self.word_list.len() as int) =~= words);
        out
    }
}

/// The character sequences of character vectors.
pub open spec fn char_views(v: Seq<Vec<char>>) -> Seq<Seq<char>> {
    v.map_values(|x: Vec<char>| x@)
}

fn best_word(words: &Vec<Vec<char>>, targets: &[char], skip: Option<usize>) -> (r: Option<usize>)
    ensures
        (match r {
            Some(i) => i as int,
            None => -1,
        }) == best_index(
            char_views(words@),
            targets@,
            match skip {
                Some(s) => s as int,
                None => -1,
            },
        ),
{
    let ghost ws = char_views(words@);
    let ghost sk: int = match skip {
        Some(s) => s as int,
        None => -1,
    };
    let mut best: Option<usize> = None;
    let mut best_score: usize = 0;
    let mut i: usize = 0;
    while i < words.len()
        invariant
            i <= words.len(),
            ws == char_views(words@),
            sk == (match skip {
                Some(s) => s as int,
                None => -1,
            }),
            (match best {
                Some(b) => b as int,
                None => -1,
            }) == best_index(ws.take(i as int), targets@, sk),
            best matches Some(b) ==> b < i && best_score == target_score(ws[b as int], targets@),
        decreases words.len() - i,
    {
        let ghost prefix = ws.take(i + 1);
        assert(prefix.drop_last() =~= ws.take(i as int));
        assert(prefix[i as int] == ws[i as int]);
        proof {
            lemma_best_index_range(ws.take(i as int), targets@, sk);
            if let Some(b) = best {
                assert(prefix[b as int] == ws[b as int]);
            }
        }
        let is_skipped = match skip {
            Some(s) => s == i,
            None => false,
        };
        if !is_skipped {
            let sc = score_of(&words[i], targets);
            match best {
                None => {
                    best = Some(i);
                    best_score = sc;
                },
                Some(_) => {
                    if sc > best_score {
                        best = Some(i);
                        best_score = sc;
                    }
                },
            }
        }
        i = i + 1;
    }
    assert(ws.take(words.len() as int) =~= ws);
    best
}

impl FrequencyAdaptiveGenerator {
    /// Practice text of `word_count` words exercising the weak characters.
    pub fn generate(&self, weak_chars: &[char], word_count: usize) -> (r: String)
        ensures
            r@ == practice_text(word_views(self.word_list@), weak_chars@, word_count as nat),
            weak_chars@.len() > 0 && (exists|i: int|
                0 <= i < self.word_list@.len() && contains_any(
                    #[trigger] self.word_list@[i]@,
                    weak_chars@,
                )) ==> exists|ws: Seq<Seq<char>>|
                #![trigger join_seqs(ws, " "@)]
                ws.len() == word_count && r@ == join_seqs(ws, " "@) && forall|k: int|
                    0 <= k < ws.len() ==> contains_any(#[trigger] ws[k], weak_chars@)
                        && word_views(self.word_list@).contains(ws[k]),
    {
        let ghost words = word_views(self.word_list@);
        proof {
            if weak_chars@.len() > 0 && (exists|i: int|
                0 <= i < self.word_list@.len() && contains_any(
                    #[trigger] self.word_list@[i]@,
                    weak_chars@,
                )) {
                let i = choose|i: int|
                    0 <= i < self.word_list@.len() && contains_any(
                        #[trigger] self.word_list@[i]@,
                        weak_chars@,
                    );
                assert(words[i] == self.word_list@[i]@);
                practice_words_hold_weak_chars(words, weak_chars@, word_count as nat);
            }
        }
        if weak_chars.len() == 0 {
            let n = if word_count < self.word_list.len() {
                word_count
            } else {
                self.word_list.len()
            };
            let mut parts: Vec<Vec<char>> = Vec::new();
            let mut k: usize = 0;
            while k < n
                invariant
                    k <= n <= self.word_list.len(),
                    words == word_views(self.word_list@),
                    char_views(parts@) == words.take(k as int),
                decreases n - k,
            {
                let w = chars_of(self.word_list[k].as_str());
                let ghost before = char_views(parts@);
                parts.push(w);
                assert(char_views(parts@) =~= before.push(w@));
                assert(words.take(k + 1) =~= words.take(k as int).push(words[k as int]));
                k = k + 1;
            }
            let joined = join_words(&parts);
            return string_from_chars(joined.as_slice());
        }
        let filtered = self.filter_words_by_chars(weak_chars);
        let source: &Vec<String> = if filtered.len() == 0 {
            &self.word_list
        } else {
            &filtered
        };
        let ghost src = word_views(source@);
        if source.len() == 0 {
            let mut parts: Vec<Vec<char>> = Vec::new();
            let mut k: usize = 0;
            while k < weak_chars.len()
                invariant
                    k <= weak_chars.len(),
                    char_views(parts@) == weak_chars@.map_values(|c: char| seq![c]).take(k as int),
                decreases weak_chars.len() - k,
            {
                let mut one: Vec<char> = Vec::new();
                one.push(weak_chars[k]);
                let ghost before = char_views(parts@);
                parts.push(one);
                assert(char_views(parts@) =~= before.push(seq![weak_chars@[k as int]]));
                assert(weak_chars@.map_values(|c: char| seq![c]).take(k + 1) =~= weak_chars@.map_values(
                    |c: char| seq![c],
                ).take(k as int).push(seq![weak_chars@[k as int]]));
                k = k + 1;
            }
            assert(weak_chars@.map_values(|c: char| seq![c]).take(weak_chars.len() as int)
                =~= weak_chars@.map_values(|c: char| seq![c]));
            let joined = join_words(&parts);
            return string_from_chars(joined.as_slice());
        }
        let mut source_chars: Vec<Vec<char>> = Vec::new();
        let mut j: usize = 0;
        while j < source.len()
            invariant
                j <= source.len(),
                src == word_views(source@),
                char_views(source_chars@) == src.take(j as int),
            decreases source.len() - j,
        {
            let w = chars_of(source[j].as_str());
            let ghost before = char_views(source_chars@);
            source_chars.push(w);
            assert(char_views(source_chars@) =~= before.push(w@));
            assert(src.take(j + 1) =~= src.take(j as int).push(src[j as int]));
            j = j + 1;
        }
        assert(src.take(source.len() as int) =~= src);
        assert(char_views(source_chars@) == src);
        let first = match best_word(&source_chars, weak_chars, None) {
            Some(f) => f,
            None => {
                proof {
                    lemma_best_index_range(src, weak_chars@, -1);
                }
                0
            },
        };
        proof {
            lemma_best_index_range(src, weak_chars@, -1);
        }
        let second = match best_word(&source_chars, weak_chars, Some(first)) {
            Some(sidx) => sidx,
            None => first,
        };
        proof {
            lemma_best_index_range(src, weak_chars@, first as int);
        }
        let ghost chosen = Seq::new(
            word_count as nat,
            |k: int|
                if src.len() > 1 && k % 2 == 1 {
                    src[best_index(src, weak_chars@, best_index(src, weak_chars@, -1))]
                } else {
                    src[best_index(src, weak_chars@, -1)]
                },
        );
        let mut parts: Vec<Vec<char>> = Vec::new();
        let mut k: usize = 0;
        while k < word_count
            invariant
                k <= word_count,
                src == word_views(source@),
                char_views(source_chars@) == src,
                src.len() == source_chars@.len(),
                first as int == best_index(src, weak_chars@, -1),
                src.len() > 1 ==> second as int == best_index(src, weak_chars@, first as int),
                first < src.len(),
                second < src.len(),
                chosen == Seq::new(
                    word_count as nat,
                    |k: int|
                        if src.len() > 1 && k % 2 == 1 {
                            src[best_index(src, weak_chars@, best_index(src, weak_chars@, -1))]
                        } else {
                            src[best_index(src, weak_chars@, -1)]
                        },
                ),
                char_views(parts@) == chosen.take(k as int),
            decreases word_count - k,
        {
            let pick = if source_chars.len() > 1 && k % 2 == 1 {
                second
            } else {
                first
            };
            let w = source_chars[pick].clone();
            let ghost before = char_views(parts@);
            parts.push(w);
            assert(char_views(parts@) =~= before.push(src[pick as int]));
            assert(chosen.take(k + 1) =~= chosen.take(k as int).push(chosen[k as int]));
            k = k + 1;
        }
        assert(chosen.take(word_count as int) =~= chosen);
        let joined = join_words(&parts);
        string_from_chars(joined.as_slice())
    }
}

} // verus!

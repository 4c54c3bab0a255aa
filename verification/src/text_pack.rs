//! Versioned text-pack interchange for user-authored practice content.
//!
//! A text pack bundles named custom texts under one language. Besides the
//! versioned JSON document, imports accept plain text blocks, TSV and CSV
//! with explicit, deterministic mapping rules (see [`TextPackSourceFormat`]).
//! Everything is parsed and validated before anything is written.

use vstd::prelude::*;

use vstd::utf8::{decode_utf8, encode_utf8, valid_utf8};

use crate::custom_texts::{text_validation_error, validate_text};
use crate::error::DbError;
use crate::text::{
    append_chars, chars_are_blank, chars_of, decimal, decimal_chars, is_blank, is_white_space,
    join_seqs, lemma_join_step, lemma_trim_empty_iff_blank, lowercase, str_to_lowercase,
    str_equals, string_from_chars, trim_chars, trim_seq, trim_start_seq,
};

verus! {

/// Format tag of a JSON text pack.
pub const TEXT_PACK_FORMAT: &'static str = "racoon-typper-text-pack";

/// Schema version of a JSON text pack.
pub const TEXT_PACK_SCHEMA_VERSION: u32 = 1;

/// Largest accepted document, in bytes.
pub const MAX_TEXT_PACK_BYTES: usize = 4 * 1024 * 1024;

/// Largest number of entries in one pack.
pub const MAX_TEXTS_PER_PACK: usize = 500;

/// One named text of a pack.
#[derive(Debug, Clone)]
pub struct TextPackEntryV1 {
    pub name: String,
    pub text: String,
}

/// The language and the texts of a pack.
#[derive(Debug, Clone)]
pub struct TextPackPayloadV1 {
    pub language: String,
    pub texts: Vec<TextPackEntryV1>,
}

/// A complete exported pack.
#[derive(Debug, Clone)]
pub struct TextPackExportV1 {
    pub format: String,
    pub schema_version: u32,
    pub application_version: String,
    pub exported_at: String,
    pub payload: TextPackPayloadV1,
}

/// The fields of a JSON pack document, as decoded from JSON.
#[derive(Debug, Clone)]
pub struct TextPackEnvelope {
    pub format: String,
    pub schema_version: u32,
    pub payload: TextPackPayloadV1,
}

/// Source mapping rules for pack files.
///
/// - `Json`: the versioned `racoon-typper-text-pack` document.
/// - `Blocks`: blank-line separated blocks; a multi-line block uses its
///   first line as the entry name; single-line blocks get generated names.
/// - `Tsv`: one entry per line; column 1 is the name, the remaining columns
///   are joined with spaces into the text. Single-column lines become
///   text-only entries.
/// - `Csv`: RFC 4180 rows mapped exactly like `Tsv`. Chosen explicitly by
///   the caller; sniffing never guesses CSV.
#[derive(Debug, Clone, Copy, PartialEq, Eq, Structural)]
pub enum TextPackSourceFormat {
    Json,
    Blocks,
    Tsv,
    Csv,
}

/// What an import does with texts that already exist.
#[derive(Debug, Clone, Copy, PartialEq, Eq, Structural)]
pub enum TextPackImportPolicy {
    /// Skip entries whose (language, normalized name) already exists.
    Merge,
    /// Delete every custom text of the pack language before inserting.
    Replace,
}

/// Preview (or outcome) of an import.
#[derive(Debug, Clone)]
pub struct TextPackImportPlan {
    pub policy: TextPackImportPolicy,
    pub source_format: TextPackSourceFormat,
    pub language: String,
    pub incoming: usize,
    pub duplicates_in_pack: usize,
    pub existing_in_language: usize,
    pub to_insert: usize,
    pub to_skip: usize,
    pub removed_by_replace: usize,
}

/// Name of a source format.
pub open spec fn format_name(f: TextPackSourceFormat) -> Seq<char> {
    match f {
        TextPackSourceFormat::Json => "json"@,
        TextPackSourceFormat::Blocks => "blocks"@,
        TextPackSourceFormat::Tsv => "tsv"@,
        TextPackSourceFormat::Csv => "csv"@,
    }
}

/// The source format named `s`, if there is one.
pub open spec fn format_named(s: Seq<char>) -> Option<TextPackSourceFormat> {
    if exists|f: TextPackSourceFormat| format_name(f) == s {
        Some(choose|f: TextPackSourceFormat| format_name(f) == s)
    } else {
        None
    }
}

/// No two source formats share a name.
pub proof fn format_names_are_distinct(f: TextPackSourceFormat, g: TextPackSourceFormat)
    ensures
        format_name(f) == format_name(g) ==> f == g,
{
    reveal_strlit("json");
    reveal_strlit("blocks");
    reveal_strlit("tsv");
    reveal_strlit("csv");
    let (x, y) = (format_name(f), format_name(g));
    if f != g {
        assert(x.len() != y.len() || x[0] != y[0]);
    }
}

/// A format's name reads back as that format, and a name reads back as a
/// format only when it is that format's name.
pub proof fn format_names_read_back(f: TextPackSourceFormat, s: Seq<char>)
    ensures
        format_named(format_name(f)) == Some(f),
        format_named(s) matches Some(g) ==> format_name(g) == s,
        format_named(s) is None <==> forall|g: TextPackSourceFormat| format_name(g) != s,
{
    let g = choose|g: TextPackSourceFormat| format_name(g) == format_name(f);
    format_names_are_distinct(f, g);
}

fn validation(message: Vec<char>) -> (e: DbError)
    ensures
        e matches DbError::Validation(m) && m@ == message@,
{
    DbError::Validation(string_from_chars(message.as_slice()))
}

fn validation_str(message: &str) -> (e: DbError)
    ensures
        e matches DbError::Validation(m) && m@ == message@,
{
    DbError::Validation(message.to_owned())
}

fn equals_literal(v: &Vec<char>, lit: &str) -> (b: bool)
    ensures
        b == (v@ == lit@),
{
    let l = chars_of(lit);
    if v.len() != l.len() {
        return false;
    }
    let mut i: usize = 0;
    while i < v.len()
        invariant
            i <= v.len(),
            v.len() == l.len(),
            l@ == lit@,
            forall|j: int| 0 <= j < i ==> v@[j] == l@[j],
        decreases v.len() - i,
    {
        if v[i] != l[i] {
            return false;
        }
        i = i + 1;
    }
    assert(v@ =~= l@);
    true
}

impl TextPackSourceFormat {
    /// Parses a format name.
    pub fn parse(value: &str) -> (r: Result<TextPackSourceFormat, DbError>)
        ensures
            match format_named(value@) {
                Some(f) => r == Ok::<TextPackSourceFormat, DbError>(f),
                None => r matches Err(e) && e matches DbError::Validation(m) && m@
                    == "Unknown text pack source format: "@ + value@,
            },
    {
        let v = chars_of(value);
        let r = if equals_literal(&v, "json") {
            Ok(TextPackSourceFormat::Json)
        } else if equals_literal(&v, "blocks") {
            Ok(TextPackSourceFormat::Blocks)
        } else if equals_literal(&v, "tsv") {
            Ok(TextPackSourceFormat::Tsv)
        } else if equals_literal(&v, "csv") {
            Ok(TextPackSourceFormat::Csv)
        } else {
            let mut message = chars_of("Unknown text pack source format: ");
            let mut tail = v;
            message.append(&mut tail);
            Err(validation(message))
        };
        proof {
            match r {
                Ok(f) => format_names_read_back(f, value@),
                Err(_) => format_names_read_back(TextPackSourceFormat::Json, value@),
            }
        }
        r
    }

    /// Name of the format.
    pub fn as_str(self) -> (s: &'static str)
        ensures
            s@ == format_name(self),
    {
        match self {
            TextPackSourceFormat::Json => "json",
            TextPackSourceFormat::Blocks => "blocks",
            TextPackSourceFormat::Tsv => "tsv",
            TextPackSourceFormat::Csv => "csv",
        }
    }
}

/// A language code: 1 to 16 bytes of lowercase ASCII letters and dashes.
pub open spec fn is_language_code(s: Seq<char>) -> bool {
    &&& s.len() > 0
    &&& encode_utf8(s).len() as usize <= 16
    &&& forall|i: int| 0 <= i < s.len() ==> ('a' <= #[trigger] s[i] <= 'z' || s[i] == '-')
}

/// Whether `value` is a language code.
pub fn valid_language_code(value: &str) -> (b: bool)
    ensures
        b == is_language_code(value@),
{
    if value.is_empty() || value.len() > 16 {
        return false;
    }
    let cs = chars_of(value);
    let mut i: usize = 0;
    while i < cs.len()
        invariant
            i <= cs.len(),
            cs@ == value@,
            forall|j: int| 0 <= j < i ==> ('a' <= #[trigger] cs@[j] <= 'z' || cs@[j] == '-'),
        decreases cs.len() - i,
    {
        let c = cs[i];
        if !(('a' <= c && c <= 'z') || c == '-') {
            return false;
        }
        i = i + 1;
    }
    true
}

/// The format guessed for an unlabelled document: JSON when it starts with
/// `{` after leading whitespace, TSV when some line holds a tab, text
/// blocks otherwise.
pub open spec fn sniffed_format(text: Seq<char>) -> TextPackSourceFormat {
    if trim_start_seq(text).len() > 0 && trim_start_seq(text)[0] == '{' {
        TextPackSourceFormat::Json
    } else if text.contains('\t') {
        TextPackSourceFormat::Tsv
    } else {
        TextPackSourceFormat::Blocks
    }
}

proof fn lemma_trim_start_skips(s: Seq<char>, k: int)
    requires
        0 <= k <= s.len(),
        forall|j: int| 0 <= j < k ==> is_white_space(#[trigger] s[j]),
    ensures
        trim_start_seq(s) == trim_start_seq(s.subrange(k, s.len() as int)),
    decreases k,
{
    if k > 0 {
        assert(s.drop_first() =~= s.subrange(1, s.len() as int));
        lemma_trim_start_skips(s.drop_first(), k - 1);
        assert(s.drop_first().subrange(k - 1, s.drop_first().len() as int) =~= s.subrange(
            k,
            s.len() as int,
        ));
    } else {
        assert(s.subrange(0, s.len() as int) =~= s);
    }
}

/// Guesses the format of an unlabelled document.
pub fn sniff_source_format(text: &str) -> (f: TextPackSourceFormat)
    ensures
        f == sniffed_format(text@),
{
    let cs = chars_of(text);
    let mut k: usize = 0;
    while k < cs.len() && crate::text::char_is_whitespace(cs[k])
        invariant
            k <= cs.len(),
            cs@ == text@,
            forall|j: int| 0 <= j < k ==> is_white_space(#[trigger] cs@[j]),
        decreases cs.len() - k,
    {
        k = k + 1;
    }
    proof {
        lemma_trim_start_skips(cs@, k as int);
        let rest = cs@.subrange(k as int, cs@.len() as int);
        if rest.len() > 0 {
            assert(rest[0] == cs@[k as int]);
        }
    }
    if k < cs.len() && cs[k] == '{' {
        return TextPackSourceFormat::Json;
    }
    let mut i: usize = 0;
    while i < cs.len()
        invariant
            i <= cs.len(),
            cs@ == text@,
            !(trim_start_seq(text@).len() > 0 && trim_start_seq(text@)[0] == '{'),
            forall|j: int| 0 <= j < i ==> cs@[j] != '\t',
        decreases cs.len() - i,
    {
        if cs[i] == '\t' {
            assert(cs@[i as int] == '\t');
            return TextPackSourceFormat::Tsv;
        }
        i = i + 1;
    }
    TextPackSourceFormat::Blocks
}

// ── Plain-text sources ──

/// The character sequences of a list of character vectors.
pub open spec fn views(v: Seq<Vec<char>>) -> Seq<Seq<char>> {
    v.map_values(|x: Vec<char>| x@)
}

/// The pieces of `s` between occurrences of `sep`, as `str::split` with a
/// character gives them.
pub open spec fn split_on(s: Seq<char>, sep: char) -> Seq<Seq<char>>
    decreases s.len(),
{
    if s.len() == 0 {
        seq![Seq::empty()]
    } else {
        let prev = split_on(s.drop_last(), sep);
        if s.last() == sep {
            prev.push(Seq::empty())
        } else {
            prev.update(prev.len() - 1, prev.last().push(s.last()))
        }
    }
}

/// The pieces of `s` between non-overlapping occurrences of a blank line
/// (`"\n\n"`), found from the left, as `str::split("\n\n")` gives them.
pub open spec fn split_paragraphs(s: Seq<char>) -> Seq<Seq<char>>
    decreases s.len(),
{
    if s.len() == 0 {
        seq![Seq::empty()]
    } else {
        let prev = split_paragraphs(s.drop_last());
        let cur = prev.last();
        if s.last() == '\n' && cur.len() > 0 && cur.last() == '\n' {
            prev.update(prev.len() - 1, cur.drop_last()).push(Seq::empty())
        } else {
            prev.update(prev.len() - 1, cur.push(s.last()))
        }
    }
}

proof fn lemma_split_on_nonempty(s: Seq<char>, sep: char)
    ensures
        split_on(s, sep).len() >= 1,
    decreases s.len(),
{
    if s.len() > 0 {
        lemma_split_on_nonempty(s.drop_last(), sep);
    }
}

proof fn lemma_split_paragraphs_nonempty(s: Seq<char>)
    ensures
        split_paragraphs(s).len() >= 1,
    decreases s.len(),
{
    if s.len() > 0 {
        lemma_split_paragraphs_nonempty(s.drop_last());
    }
}

/// Each piece trimmed, blank pieces dropped.
pub open spec fn trimmed_nonblank(p: Seq<Seq<char>>) -> Seq<Seq<char>>
    decreases p.len(),
{
    if p.len() == 0 {
        Seq::empty()
    } else {
        let prev = trimmed_nonblank(p.drop_last());
        if trim_seq(p.last()).len() > 0 {
            prev.push(trim_seq(p.last()))
        } else {
            prev
        }
    }
}

/// Each piece trimmed.
pub open spec fn trim_each(p: Seq<Seq<char>>) -> Seq<Seq<char>> {
    p.map_values(|x: Seq<char>| trim_seq(x))
}

/// (name, text) of a row of columns: a single column is a text without a
/// name; otherwise the first column is the name and the others, joined by
/// spaces, are the text.
pub open spec fn columns_pair(cols: Seq<Seq<char>>) -> (Seq<char>, Seq<char>) {
    if cols.len() == 1 {
        (Seq::empty(), cols[0])
    } else if cols.len() == 0 {
        (Seq::empty(), Seq::empty())
    } else {
        (cols[0], join_seqs(cols.drop_first(), " "@))
    }
}

/// (name, text) of a text block: `None` for a blank block; a single line
/// is a text without a name; otherwise the first line is the name and the
/// other lines are the text.
pub open spec fn block_pair(block: Seq<char>) -> Option<(Seq<char>, Seq<char>)> {
    let lines = trimmed_nonblank(split_on(trim_seq(block), '\n'));
    if lines.len() == 0 {
        None
    } else if lines.len() == 1 {
        Some((Seq::empty(), lines[0]))
    } else {
        Some((lines[0], join_seqs(lines.drop_first(), "\n"@)))
    }
}

/// (name, text) of a delimited line: `None` for a blank line; otherwise its
/// trimmed columns.
pub open spec fn line_pair(line: Seq<char>, delimiter: char) -> Option<(Seq<char>, Seq<char>)> {
    if trim_seq(line).len() == 0 {
        None
    } else {
        Some(columns_pair(trim_each(split_on(trim_seq(line), delimiter))))
    }
}

/// The present pairs, in order.
pub open spec fn present(p: Seq<Option<(Seq<char>, Seq<char>)>>) -> Seq<(Seq<char>, Seq<char>)>
    decreases p.len(),
{
    if p.len() == 0 {
        Seq::empty()
    } else {
        match p.last() {
            Some(x) => present(p.drop_last()).push(x),
            None => present(p.drop_last()),
        }
    }
}

/// Pairs of a text-block source.
pub open spec fn block_pairs(text: Seq<char>) -> Seq<(Seq<char>, Seq<char>)> {
    present(split_paragraphs(text).map_values(|b: Seq<char>| block_pair(b)))
}

/// Pairs of a tab-separated source.
pub open spec fn tsv_pairs(text: Seq<char>) -> Seq<(Seq<char>, Seq<char>)> {
    present(split_on(text, '\n').map_values(|l: Seq<char>| line_pair(l, '\t')))
}

/// The character sequences of an exec pair list.
pub open spec fn pair_views(p: Seq<(Vec<char>, Vec<char>)>) -> Seq<(Seq<char>, Seq<char>)> {
    p.map_values(|x: (Vec<char>, Vec<char>)| (x.0@, x.1@))
}

/// Splits `s` at each `sep`.
fn split_chars(s: &Vec<char>, sep: char) -> (r: Vec<Vec<char>>)
    ensures
        views(r@) == split_on(s@, sep),
{
    let mut done: Vec<Vec<char>> = Vec::new();
    let mut cur: Vec<char> = Vec::new();
    let mut i: usize = 0;
    while i < s.len()
        invariant
            i <= s.len(),
            views(done@).push(cur@) == split_on(s@.take(i as int), sep),
        decreases s.len() - i,
    {
        let ghost prev = views(done@).push(cur@);
        assert(s@.take(i + 1).drop_last() =~= s@.take(i as int));
        assert(s@.take(i + 1).last() == s@[i as int]);
        let c = s[i];
        if c == sep {
            let finished = cur;
            done.push(finished);
            cur = Vec::new();
            assert(views(done@).push(cur@) =~= prev.push(Seq::empty()));
        } else {
            cur.push(c);
            assert(views(done@).push(cur@) =~= prev.update(prev.len() - 1, prev.last().push(c)));
        }
        i = i + 1;
    }
    assert(s@.take(s.len() as int) =~= s@);
    done.push(cur);
    assert(views(done@) =~= split_on(s@, sep));
    done
}

/// Splits `s` at each blank line.
fn split_paragraph_chars(s: &Vec<char>) -> (r: Vec<Vec<char>>)
    ensures
        views(r@) == split_paragraphs(s@),
{
    let mut done: Vec<Vec<char>> = Vec::new();
    let mut cur: Vec<char> = Vec::new();
    let mut i: usize = 0;
    while i < s.len()
        invariant
            i <= s.len(),
            views(done@).push(cur@) == split_paragraphs(s@.take(i as int)),
        decreases s.len() - i,
    {
        let ghost prev = views(done@).push(cur@);
        assert(s@.take(i + 1).drop_last() =~= s@.take(i as int));
        assert(s@.take(i + 1).last() == s@[i as int]);
        let c = s[i];
        if c == '\n' && cur.len() > 0 && cur[cur.len() - 1] == '\n' {
            cur.pop();
            let finished = cur;
            done.push(finished);
            cur = Vec::new();
            assert(views(done@).push(cur@) =~= prev.update(prev.len() - 1, prev.last().drop_last()).push(
                Seq::empty(),
            ));
        } else {
            cur.push(c);
            assert(views(done@).push(cur@) =~= prev.update(prev.len() - 1, prev.last().push(c)));
        }
        i = i + 1;
    }
    assert(s@.take(s.len() as int) =~= s@);
    done.push(cur);
    assert(views(done@) =~= split_paragraphs(s@));
    done
}

/// Trims every piece and drops the blank ones.
fn trim_nonblank_pieces(p: &Vec<Vec<char>>) -> (r: Vec<Vec<char>>)
    ensures
        views(r@) == trimmed_nonblank(views(p@)),
{
    let mut out: Vec<Vec<char>> = Vec::new();
    let mut i: usize = 0;
    while i < p.len()
        invariant
            i <= p.len(),
            views(out@) == trimmed_nonblank(views(p@).take(i as int)),
        decreases p.len() - i,
    {
        assert(views(p@).take(i + 1).drop_last() =~= views(p@).take(i as int));
        let t = trim_chars(p[i].as_slice());
        if t.len() > 0 {
            out.push(t);
        }
        i = i + 1;
        assert(views(out@) =~= trimmed_nonblank(views(p@).take(i as int)));
    }
    assert(views(p@).take(p.len() as int) =~= views(p@));
    out
}

/// Parts `start..` of `parts` joined with `sep`.
fn join_from(parts: &Vec<Vec<char>>, start: usize, sep: &str) -> (r: Vec<char>)
    requires
        start <= parts.len(),
    ensures
        r@ == join_seqs(views(parts@).skip(start as int), sep@),
{
    let ghost tail = views(parts@).skip(start as int);
    let sep_chars = chars_of(sep);
    let mut out: Vec<char> = Vec::new();
    let mut k: usize = start;
    while k < parts.len()
        invariant
            start <= k <= parts.len(),
            tail == views(parts@).skip(start as int),
            sep_chars@ == sep@,
            out@ == join_seqs(tail.take(k - start), sep@),
        decreases parts.len() - k,
    {
        proof {
            lemma_join_step(tail, sep@, k - start);
        }
        if k > start {
            append_chars(&mut out, sep_chars.as_slice());
        }
        append_chars(&mut out, parts[k].as_slice());
        k = k + 1;
        assert(out@ =~= join_seqs(tail.take(k - start), sep@));
    }
    assert(tail.take(parts.len() - start) =~= tail);
    out
}

/// (name, text) of trimmed columns.
fn columns_to_pair(cols: &Vec<Vec<char>>) -> (r: (Vec<char>, Vec<char>))
    ensures
        (r.0@, r.1@) == columns_pair(views(cols@)),
{
    if cols.len() == 1 {
        (Vec::new(), cols[0].clone())
    } else if cols.len() == 0 {
        (Vec::new(), Vec::new())
    } else {
        let rest = join_from(cols, 1, " ");
        assert(views(cols@).skip(1) =~= views(cols@).drop_first());
        (cols[0].clone(), rest)
    }
}

/// Trims every piece.
fn trim_pieces(p: &Vec<Vec<char>>) -> (r: Vec<Vec<char>>)
    ensures
        views(r@) == trim_each(views(p@)),
{
    let mut out: Vec<Vec<char>> = Vec::new();
    let mut i: usize = 0;
    while i < p.len()
        invariant
            i <= p.len(),
            views(out@) == trim_each(views(p@)).take(i as int),
        decreases p.len() - i,
    {
        let t = trim_chars(p[i].as_slice());
        let ghost before = views(out@);
        assert(trim_each(views(p@))[i as int] == trim_seq(p@[i as int]@));
        out.push(t);
        assert(views(out@) =~= before.push(t@));
        assert(trim_each(views(p@)).take(i + 1) =~= trim_each(views(p@)).take(i as int).push(
            trim_seq(p@[i as int]@),
        ));
        i = i + 1;
    }
    assert(trim_each(views(p@)).take(p.len() as int) =~= trim_each(views(p@)));
    out
}

/// (name, text) of a text block.
fn block_to_pair(block: &Vec<char>) -> (r: Option<(Vec<char>, Vec<char>)>)
    ensures
        r matches Some(x) ==> block_pair(block@) == Some((x.0@, x.1@)),
        r is None ==> block_pair(block@) is None,
{
    let trimmed = trim_chars(block.as_slice());
    let pieces = split_chars(&trimmed, '\n');
    let lines = trim_nonblank_pieces(&pieces);
    if lines.len() == 0 {
        None
    } else if lines.len() == 1 {
        Some((Vec::new(), lines[0].clone()))
    } else {
        let rest = join_from(&lines, 1, "\n");
        assert(views(lines@).skip(1) =~= views(lines@).drop_first());
        Some((lines[0].clone(), rest))
    }
}

/// (name, text) of a delimited line.
fn line_to_pair(line: &Vec<char>, delimiter: char) -> (r: Option<(Vec<char>, Vec<char>)>)
    ensures
        r matches Some(x) ==> line_pair(line@, delimiter) == Some((x.0@, x.1@)),
        r is None ==> line_pair(line@, delimiter) is None,
{
    let trimmed = trim_chars(line.as_slice());
    if trimmed.len() == 0 {
        return None;
    }
    let cols = split_chars(&trimmed, delimiter);
    let cols = trim_pieces(&cols);
    Some(columns_to_pair(&cols))
}

/// Pairs of a text-block source.
fn block_source_pairs(text: &Vec<char>) -> (r: Vec<(Vec<char>, Vec<char>)>)
    ensures
        pair_views(r@) == block_pairs(text@),
{
    let blocks = split_paragraph_chars(text);
    let ghost opts = views(blocks@).map_values(|b: Seq<char>| block_pair(b));
    let mut out: Vec<(Vec<char>, Vec<char>)> = Vec::new();
    let mut i: usize = 0;
    while i < blocks.len()
        invariant
            i <= blocks.len(),
            opts == views(blocks@).map_values(|b: Seq<char>| block_pair(b)),
            pair_views(out@) == present(opts.take(i as int)),
        decreases blocks.len() - i,
    {
        assert(opts.take(i + 1).drop_last() =~= opts.take(i as int));
        assert(opts[i as int] == block_pair(blocks@[i as int]@));
        match block_to_pair(&blocks[i]) {
            Some(x) => {
                out.push(x);
            },
            None => {},
        }
        i = i + 1;
        assert(pair_views(out@) =~= present(opts.take(i as int)));
    }
    assert(opts.take(blocks.len() as int) =~= opts);
    out
}

/// Pairs of a tab-separated source.
fn tsv_source_pairs(text: &Vec<char>) -> (r: Vec<(Vec<char>, Vec<char>)>)
    ensures
        pair_views(r@) == tsv_pairs(text@),
{
    let lines = split_chars(text, '\n');
    let ghost opts = views(lines@).map_values(|l: Seq<char>| line_pair(l, '\t'));
    let mut out: Vec<(Vec<char>, Vec<char>)> = Vec::new();
    let mut i: usize = 0;
    while i < lines.len()
        invariant
            i <= lines.len(),
            opts == views(lines@).map_values(|l: Seq<char>| line_pair(l, '\t')),
            pair_views(out@) == present(opts.take(i as int)),
        decreases lines.len() - i,
    {
        assert(opts.take(i + 1).drop_last() =~= opts.take(i as int));
        assert(opts[i as int] == line_pair(lines@[i as int]@, '\t'));
        match line_to_pair(&lines[i], '\t') {
            Some(x) => {
                out.push(x);
            },
            None => {},
        }
        i = i + 1;
        assert(pair_views(out@) =~= present(opts.take(i as int)));
    }
    assert(opts.take(lines.len() as int) =~= opts);
    out
}

// ── CSV source ──

/// State of the CSV scanner after a prefix of the input: finished rows,
/// the current row and field, whether a quoted field is open, whether a
/// quote inside it awaits the next character (a second quote escapes it,
/// anything else closes the field), and whether the field has started.
pub ghost struct CsvScan {
    pub rows: Seq<Seq<Seq<char>>>,
    pub row: Seq<Seq<char>>,
    pub field: Seq<char>,
    pub in_quotes: bool,
    pub quote_pending: bool,
    pub field_started: bool,
}

/// Some column of the row is not blank.
pub open spec fn has_text(row: Seq<Seq<char>>) -> bool {
    exists|i: int| 0 <= i < row.len() && trim_seq(#[trigger] row[i]).len() > 0
}

/// One character outside quotes: a quote opens a quoted field only at the
/// start of a field, a comma ends the field, a carriage return is dropped,
/// a line feed ends the row (kept when some column is not blank).
pub open spec fn csv_plain_step(st: CsvScan, c: char) -> CsvScan {
    if c == '"' && !st.field_started {
        CsvScan { in_quotes: true, ..st }
    } else if c == ',' {
        CsvScan { row: st.row.push(st.field), field: Seq::empty(), field_started: false, ..st }
    } else if c == '\r' {
        st
    } else if c == '\n' {
        let full = st.row.push(st.field);
        CsvScan {
            rows: if has_text(full) {
                st.rows.push(full)
            } else {
                st.rows
            },
            row: Seq::empty(),
            field: Seq::empty(),
            field_started: false,
            ..st
        }
    } else {
        CsvScan { field: st.field.push(c), field_started: true, ..st }
    }
}

/// One character of CSV input.
pub open spec fn csv_step(st: CsvScan, c: char) -> CsvScan {
    if st.in_quotes {
        if st.quote_pending {
            if c == '"' {
                CsvScan { field: st.field.push('"'), quote_pending: false, ..st }
            } else {
                csv_plain_step(CsvScan { in_quotes: false, quote_pending: false, ..st }, c)
            }
        } else if c == '"' {
            CsvScan { quote_pending: true, ..st }
        } else {
            CsvScan { field: st.field.push(c), ..st }
        }
    } else {
        csv_plain_step(st, c)
    }
}

/// The scanner before any input.
pub open spec fn csv_start() -> CsvScan {
    CsvScan {
        rows: Seq::empty(),
        row: Seq::empty(),
        field: Seq::empty(),
        in_quotes: false,
        quote_pending: false,
        field_started: false,
    }
}

/// The scanner after `s`.
pub open spec fn csv_scan(s: Seq<char>) -> CsvScan
    decreases s.len(),
{
    if s.len() == 0 {
        csv_start()
    } else {
        csv_step(csv_scan(s.drop_last()), s.last())
    }
}

/// The rows of a CSV text; `None` when a quoted field is left open.
pub open spec fn csv_rows(s: Seq<char>) -> Option<Seq<Seq<Seq<char>>>> {
    let st = csv_scan(s);
    if st.in_quotes && !st.quote_pending {
        None
    } else if st.field.len() > 0 || st.row.len() > 0 {
        let full = st.row.push(st.field);
        Some(
            if has_text(full) {
                st.rows.push(full)
            } else {
                st.rows
            },
        )
    } else {
        Some(st.rows)
    }
}

/// Pairs of CSV rows, mapped like tab-separated lines.
pub open spec fn csv_row_pairs(rows: Seq<Seq<Seq<char>>>) -> Seq<(Seq<char>, Seq<char>)> {
    rows.map_values(|r: Seq<Seq<char>>| columns_pair(trim_each(r)))
}

/// Character sequences of exec rows.
pub open spec fn row_views(rows: Seq<Vec<Vec<char>>>) -> Seq<Seq<Seq<char>>> {
    rows.map_values(|r: Vec<Vec<char>>| views(r@))
}

struct CsvScanner {
    rows: Vec<Vec<Vec<char>>>,
    row: Vec<Vec<char>>,
    field: Vec<char>,
    in_quotes: bool,
    quote_pending: bool,
    field_started: bool,
}

impl CsvScanner {
    spec fn scan(&self) -> CsvScan {
        CsvScan {
            rows: row_views(self.rows@),
            row: views(self.row@),
            field: self.field@,
            in_quotes: self.in_quotes,
            quote_pending: self.quote_pending,
            field_started: self.field_started,
        }
    }

    fn end_field(&mut self)
        ensures
            final(self).scan() == (CsvScan {
                row: old(self).scan().row.push(old(self).scan().field),
                field: Seq::empty(),
                field_started: false,
                ..old(self).scan()
            }),
    {
        let mut f: Vec<char> = Vec::new();
        std::mem::swap(&mut f, &mut self.field);
        let ghost before = views(self.row@);
        self.row.push(f);
        self.field_started = false;
        assert(views(self.row@) =~= before.push(f@));
    }

    fn end_row(&mut self)
        ensures
            ({
                let full = old(self).scan().row.push(old(self).scan().field);
                final(self).scan() == (CsvScan {
                    rows: if has_text(full) {
                        old(self).scan().rows.push(full)
                    } else {
                        old(self).scan().rows
                    },
                    row: Seq::empty(),
                    field: Seq::empty(),
                    field_started: false,
                    ..old(self).scan()
                })
            }),
    {
        self.end_field();
        let keep = row_has_text(&self.row);
        let mut r: Vec<Vec<char>> = Vec::new();
        std::mem::swap(&mut r, &mut self.row);
        if keep {
            let ghost before = row_views(self.rows@);
            self.rows.push(r);
            assert(row_views(self.rows@) =~= before.push(views(r@)));
        }
        assert(views(self.row@) =~= Seq::<Seq<char>>::empty());
    }

    fn plain_step(&mut self, c: char)
        ensures
            final(self).scan() == csv_plain_step(old(self).scan(), c),
    {
        if c == '"' && !self.field_started {
            self.in_quotes = true;
        } else if c == ',' {
            self.end_field();
        } else if c == '\r' {
        } else if c == '\n' {
            self.end_row();
        } else {
            self.field_started = true;
            self.field.push(c);
        }
    }

    fn step(&mut self, c: char)
        ensures
            final(self).scan() == csv_step(old(self).scan(), c),
    {
        if self.in_quotes {
            if self.quote_pending {
                if c == '"' {
                    self.field.push('"');
                    self.quote_pending = false;
                } else {
                    self.in_quotes = false;
                    self.quote_pending = false;
                    self.plain_step(c);
                }
            } else if c == '"' {
                self.quote_pending = true;
            } else {
                self.field.push(c);
            }
        } else {
            self.plain_step(c);
        }
    }
}

/// Whether some column of `row` is not blank.
fn row_has_text(row: &Vec<Vec<char>>) -> (b: bool)
    ensures
        b == has_text(views(row@)),
{
    let mut i: usize = 0;
    while i < row.len()
        invariant
            i <= row.len(),
            forall|j: int| 0 <= j < i ==> trim_seq(#[trigger] views(row@)[j]).len() == 0,
        decreases row.len() - i,
    {
        proof {
            lemma_trim_empty_iff_blank(row@[i as int]@);
        }
        if !chars_are_blank(row[i].as_slice()) {
            assert(trim_seq(views(row@)[i as int]).len() > 0);
            return true;
        }
        assert(trim_seq(views(row@)[i as int]).len() == 0);
        i = i + 1;
    }
    false
}

/// Splits CSV text into rows of fields; `None` when a quoted field is left
/// open.
pub fn parse_csv_rows(text: &Vec<char>) -> (r: Option<Vec<Vec<Vec<char>>>>)
    ensures
        r matches Some(rows) ==> csv_rows(text@) == Some(row_views(rows@)),
        r is None ==> csv_rows(text@) is None,
{
    let mut sc = CsvScanner {
        rows: Vec::new(),
        row: Vec::new(),
        field: Vec::new(),
        in_quotes: false,
        quote_pending: false,
        field_started: false,
    };
    assert(sc.scan() == csv_start()) by {
        assert(row_views(sc.rows@) =~= Seq::<Seq<Seq<char>>>::empty());
        assert(views(sc.row@) =~= Seq::<Seq<char>>::empty());
    }
    let mut i: usize = 0;
    while i < text.len()
        invariant
            i <= text.len(),
            sc.scan() == csv_scan(text@.take(i as int)),
        decreases text.len() - i,
    {
        assert(text@.take(i + 1).drop_last() =~= text@.take(i as int));
        assert(text@.take(i + 1).last() == text@[i as int]);
        sc.step(text[i]);
        i = i + 1;
    }
    assert(text@.take(text.len() as int) =~= text@);
    if sc.in_quotes && !sc.quote_pending {
        return None;
    }
    if sc.field.len() > 0 || sc.row.len() > 0 {
        let mut f: Vec<char> = Vec::new();
        std::mem::swap(&mut f, &mut sc.field);
        let ghost before = views(sc.row@);
        sc.row.push(f);
        assert(views(sc.row@) =~= before.push(f@));
        if row_has_text(&sc.row) {
            let ghost rows_before = row_views(sc.rows@);
            let mut r: Vec<Vec<char>> = Vec::new();
            std::mem::swap(&mut r, &mut sc.row);
            sc.rows.push(r);
            assert(row_views(sc.rows@) =~= rows_before.push(views(r@)));
        }
    }
    Some(sc.rows)
}

/// Pairs of CSV rows.
fn csv_rows_to_pairs(rows: &Vec<Vec<Vec<char>>>) -> (r: Vec<(Vec<char>, Vec<char>)>)
    ensures
        pair_views(r@) == csv_row_pairs(row_views(rows@)),
{
    let mut out: Vec<(Vec<char>, Vec<char>)> = Vec::new();
    let mut i: usize = 0;
    while i < rows.len()
        invariant
            i <= rows.len(),
            pair_views(out@) == csv_row_pairs(row_views(rows@)).take(i as int),
        decreases rows.len() - i,
    {
        let cols = trim_pieces(&rows[i]);
        let pair = columns_to_pair(&cols);
        let ghost before = pair_views(out@);
        assert(csv_row_pairs(row_views(rows@))[i as int] == columns_pair(trim_each(views(rows@[i as int]@))));
        out.push(pair);
        assert(pair_views(out@) =~= before.push((pair.0@, pair.1@)));
        assert(csv_row_pairs(row_views(rows@)).take(i + 1) =~= csv_row_pairs(row_views(rows@)).take(i as int).push(
            columns_pair(trim_each(views(rows@[i as int]@))),
        ));
        i = i + 1;
    }
    assert(csv_row_pairs(row_views(rows@)).take(rows.len() as int) =~= csv_row_pairs(row_views(rows@)));
    out
}

// ── Entries, validation and import resolution ──

/// Name of the entry at `index`: blank names become `Text {index + 1}`.
pub open spec fn entry_name(name: Seq<char>, index: int) -> Seq<char> {
    if trim_seq(name).len() == 0 {
        "Text "@ + decimal((index + 1) as nat)
    } else {
        name
    }
}

/// The pairs with generated names for blank ones.
pub open spec fn named(pairs: Seq<(Seq<char>, Seq<char>)>) -> Seq<(Seq<char>, Seq<char>)> {
    Seq::new(pairs.len(), |i: int| (entry_name(pairs[i].0, i), pairs[i].1))
}

/// (name, text) of each entry.
pub open spec fn entry_views(v: Seq<TextPackEntryV1>) -> Seq<(Seq<char>, Seq<char>)> {
    v.map_values(|e: TextPackEntryV1| (e.name@, e.text@))
}

/// Language and (name, text) entries of a payload.
pub open spec fn payload_view(p: TextPackPayloadV1) -> (Seq<char>, Seq<(Seq<char>, Seq<char>)>) {
    (p.language@, entry_views(p.texts@))
}

/// Entries from (name, text) pairs, naming the unnamed ones.
fn named_entries(pairs: Vec<(Vec<char>, Vec<char>)>) -> (r: Vec<TextPackEntryV1>)
    ensures
        entry_views(r@) == named(pair_views(pairs@)),
{
    let ghost target = named(pair_views(pairs@));
    let mut out: Vec<TextPackEntryV1> = Vec::new();
    let mut i: usize = 0;
    while i < pairs.len()
        invariant
            i <= pairs.len(),
            target == named(pair_views(pairs@)),
            entry_views(out@) == target.take(i as int),
        decreases pairs.len() - i,
    {
        let (name, text) = &pairs[i];
        let blank = chars_are_blank(name.as_slice());
        proof {
            lemma_trim_empty_iff_blank(name@);
        }
        let final_name = if blank {
            let mut n = chars_of("Text ");
            let mut digits = decimal_chars((i + 1) as u64);
            n.append(&mut digits);
            string_from_chars(n.as_slice())
        } else {
            string_from_chars(name.as_slice())
        };
        let entry = TextPackEntryV1 { name: final_name, text: string_from_chars(text.as_slice()) };
        let ghost before = entry_views(out@);
        out.push(entry);
        assert(entry_views(out@) =~= before.push((entry.name@, entry.text@)));
        assert(target.take(i + 1) =~= target.take(i as int).push(target[i as int]));
        i = i + 1;
    }
    assert(target.take(pairs.len() as int) =~= target);
    out
}

/// The payload of a decoded JSON document, or why it is refused.
pub open spec fn json_payload(json: Result<TextPackEnvelope, String>) -> Result<
    (Seq<char>, Seq<(Seq<char>, Seq<char>)>),
    Seq<char>,
> {
    match json {
        Err(e) => Err("Invalid text pack document: "@ + e@),
        Ok(env) => if env.format@ != TEXT_PACK_FORMAT@ {
            Err("Unsupported text pack format: expected racoon-typper-text-pack"@)
        } else if env.schema_version != TEXT_PACK_SCHEMA_VERSION {
            Err("Unsupported text pack schema version: "@ + decimal(env.schema_version as nat))
        } else {
            Ok(payload_view(env.payload))
        },
    }
}

/// The payload of a source in format `f` (with `json` the decoded JSON
/// document), or why it is refused. Plain-text sources carry no language.
pub open spec fn parsed_source(
    text: Seq<char>,
    f: TextPackSourceFormat,
    json: Result<TextPackEnvelope, String>,
) -> Result<(Seq<char>, Seq<(Seq<char>, Seq<char>)>), Seq<char>> {
    match f {
        TextPackSourceFormat::Json => json_payload(json),
        TextPackSourceFormat::Blocks => Ok((Seq::empty(), named(block_pairs(text)))),
        TextPackSourceFormat::Tsv => Ok((Seq::empty(), named(tsv_pairs(text)))),
        TextPackSourceFormat::Csv => match csv_rows(text) {
            Some(rows) => Ok((Seq::empty(), named(csv_row_pairs(rows)))),
            None => Err("Text pack CSV has an unterminated quoted field"@),
        },
    }
}

/// Parses a source in format `f`; a JSON source is taken from `json`.
fn parse_source(
    text: &str,
    f: TextPackSourceFormat,
    json: Result<TextPackEnvelope, String>,
) -> (r: Result<TextPackPayloadV1, DbError>)
    ensures
        r matches Ok(p) ==> parsed_source(text@, f, json) == Ok::<
            (Seq<char>, Seq<(Seq<char>, Seq<char>)>),
            Seq<char>,
        >(payload_view(p)),
        r matches Err(e) ==> e matches DbError::Validation(m) && parsed_source(text@, f, json)
            == Err::<(Seq<char>, Seq<(Seq<char>, Seq<char>)>), Seq<char>>(m@),
{
    let cs = chars_of(text);
    let pairs = match f {
        TextPackSourceFormat::Json => {
            return match json {
                Err(e) => {
                    let mut m = chars_of("Invalid text pack document: ");
                    let mut rest = chars_of(e.as_str());
                    m.append(&mut rest);
                    Err(validation(m))
                },
                Ok(env) => {
                    let format_chars = chars_of(env.format.as_str());
                    if !equals_literal(&format_chars, TEXT_PACK_FORMAT) {
                        Err(
                            validation_str(
                                "Unsupported text pack format: expected racoon-typper-text-pack",
                            ),
                        )
                    } else if env.schema_version != TEXT_PACK_SCHEMA_VERSION {
                        let mut m = chars_of("Unsupported text pack schema version: ");
                        let mut digits = decimal_chars(env.schema_version as u64);
                        m.append(&mut digits);
                        Err(validation(m))
                    } else {
                        Ok(env.payload)
                    }
                },
            };
        },
        TextPackSourceFormat::Blocks => block_source_pairs(&cs),
        TextPackSourceFormat::Tsv => tsv_source_pairs(&cs),
        TextPackSourceFormat::Csv => match parse_csv_rows(&cs) {
            Some(rows) => csv_rows_to_pairs(&rows),
            None => {
                return Err(validation_str("Text pack CSV has an unterminated quoted field"));
            },
        },
    };
    let texts = named_entries(pairs);
    let p = TextPackPayloadV1 { language: String::new(), texts };
    assert(p.language@ =~= Seq::<char>::empty());
    Ok(p)
}

/// The first entry that `validate_text` refuses, with its message.
pub open spec fn first_invalid_entry(entries: Seq<(Seq<char>, Seq<char>)>) -> Option<
    (Seq<char>, Seq<char>),
>
    decreases entries.len(),
{
    if entries.len() == 0 {
        None
    } else {
        match first_invalid_entry(entries.drop_last()) {
            Some(x) => Some(x),
            None => match text_validation_error(entries.last().0, entries.last().1) {
                Some(m) => Some((entries.last().0, m)),
                None => None,
            },
        }
    }
}

proof fn lemma_first_invalid_prefix(s: Seq<(Seq<char>, Seq<char>)>, k: int)
    requires
        0 <= k <= s.len(),
        first_invalid_entry(s.take(k)) is Some,
    ensures
        first_invalid_entry(s) == first_invalid_entry(s.take(k)),
    decreases s.len() - k,
{
    if k < s.len() {
        assert(s.take(k + 1).drop_last() =~= s.take(k));
        lemma_first_invalid_prefix(s, k + 1);
    } else {
        assert(s.take(k) =~= s);
    }
}

/// The payload after the bounds shared by every format, or why it is
/// refused: at most `MAX_TEXTS_PER_PACK` entries, a JSON pack states its
/// language, plain-text sources default to `en`, the language is a language
/// code, and every entry passes `validate_text`.
pub open spec fn finalized(
    p: (Seq<char>, Seq<(Seq<char>, Seq<char>)>),
    f: TextPackSourceFormat,
) -> Result<(Seq<char>, Seq<(Seq<char>, Seq<char>)>), Seq<char>> {
    if p.1.len() > MAX_TEXTS_PER_PACK {
        Err("Text pack exceeds the 500-entry limit"@)
    } else if f == TextPackSourceFormat::Json && p.0.len() == 0 {
        Err("Text pack language is empty"@)
    } else {
        let language = if p.0.len() == 0 {
            "en"@
        } else {
            p.0
        };
        if !is_language_code(language) {
            Err("Text pack language is not a valid language code"@)
        } else {
            match first_invalid_entry(p.1) {
                Some(x) => Err("Invalid pack entry '"@ + x.0 + "': "@ + x.1),
                None => Ok((language, p.1)),
            }
        }
    }
}

/// Applies the bounds shared by every source format.
fn finalize_payload(payload: &mut TextPackPayloadV1, source_format: TextPackSourceFormat) -> (r:
    Result<(), DbError>)
    ensures
        r is Ok ==> finalized(payload_view(*old(payload)), source_format) == Ok::<
            (Seq<char>, Seq<(Seq<char>, Seq<char>)>),
            Seq<char>,
        >(payload_view(*final(payload))),
        r matches Err(e) ==> e matches DbError::Validation(m) && finalized(
            payload_view(*old(payload)),
            source_format,
        ) == Err::<(Seq<char>, Seq<(Seq<char>, Seq<char>)>), Seq<char>>(m@),
{
    let ghost orig = payload_view(*payload);
    if payload.texts.len() > MAX_TEXTS_PER_PACK {
        return Err(validation_str("Text pack exceeds the 500-entry limit"));
    }
    let empty = payload.language.as_str().is_empty();
    if source_format == TextPackSourceFormat::Json {
        if empty {
            return Err(validation_str("Text pack language is empty"));
        }
    } else if empty {
        payload.language = "en".to_owned();
    }
    if !valid_language_code(payload.language.as_str()) {
        return Err(validation_str("Text pack language is not a valid language code"));
    }
    let ghost entries = entry_views(payload.texts@);
    let mut i: usize = 0;
    while i < payload.texts.len()
        invariant
            i <= payload.texts.len(),
            entries == entry_views(payload.texts@),
            entries == orig.1,
            orig == payload_view(*old(payload)),
            entries.len() <= MAX_TEXTS_PER_PACK,
            !(source_format == TextPackSourceFormat::Json && orig.0.len() == 0),
            payload.language@ == (if orig.0.len() == 0 {
                "en"@
            } else {
                orig.0
            }),
            is_language_code(payload.language@),
            first_invalid_entry(entries.take(i as int)) is None,
        decreases payload.texts.len() - i,
    {
        assert(entries.take(i + 1).drop_last() =~= entries.take(i as int));
        assert(entries[i as int] == (payload.texts@[i as int].name@, payload.texts@[i as int].text@));
        let entry = &payload.texts[i];
        match validate_text(entry.name.as_str(), entry.text.as_str()) {
            Ok(()) => {},
            Err(message) => {
                let mut m = chars_of("Invalid pack entry '");
                let mut name = chars_of(entry.name.as_str());
                m.append(&mut name);
                let mut mid = chars_of("': ");
                m.append(&mut mid);
                let mut rest = chars_of(message.as_str());
                m.append(&mut rest);
                proof {
                    assert(entries.take(i + 1).last() == entries[i as int]);
                    assert(first_invalid_entry(entries.take(i + 1)) == Some((entry.name@, message@)));
                    lemma_first_invalid_prefix(entries, i + 1);
                }
                return Err(validation(m));
            },
        }
        i = i + 1;
    }
    assert(entries.take(payload.texts.len() as int) =~= entries);
    Ok(())
}

/// The payload and format of a pack document, or why it is refused: at
/// most `MAX_TEXT_PACK_BYTES` bytes of valid UTF-8, in the given format or
/// the sniffed one, parsed and then bounded by `finalized`.
pub open spec fn resolved_import(
    document: Seq<u8>,
    source_format: Option<TextPackSourceFormat>,
    json: Result<TextPackEnvelope, String>,
) -> Result<((Seq<char>, Seq<(Seq<char>, Seq<char>)>), TextPackSourceFormat), Seq<char>> {
    if document.len() > MAX_TEXT_PACK_BYTES {
        Err("Text pack exceeds the 4194304-byte limit"@)
    } else if !valid_utf8(document) {
        Err("Text pack is not valid UTF-8"@)
    } else {
        let text = decode_utf8(document);
        let f = match source_format {
            Some(f) => f,
            None => sniffed_format(text),
        };
        match parsed_source(text, f, json) {
            Err(m) => Err(m),
            Ok(p) => match finalized(p, f) {
                Err(m) => Err(m),
                Ok(q) => Ok((q, f)),
            },
        }
    }
}

/// Decodes, parses and validates a pack document. `json` is the document
/// decoded as a JSON pack, which is used when the format is (or is sniffed
/// as) JSON.
pub fn resolve_import(
    document: &[u8],
    source_format: Option<TextPackSourceFormat>,
    json: Result<TextPackEnvelope, String>,
) -> (r: Result<(TextPackPayloadV1, TextPackSourceFormat), DbError>)
    ensures
        r matches Ok(x) ==> resolved_import(document@, source_format, json) == Ok::<
            ((Seq<char>, Seq<(Seq<char>, Seq<char>)>), TextPackSourceFormat),
            Seq<char>,
        >((payload_view(x.0), x.1)),
        r matches Err(e) ==> e matches DbError::Validation(m) && resolved_import(
            document@,
            source_format,
            json,
        ) == Err::<((Seq<char>, Seq<(Seq<char>, Seq<char>)>), TextPackSourceFormat), Seq<char>>(
            m@,
        ),
{
    if document.len() > MAX_TEXT_PACK_BYTES {
        return Err(validation_str("Text pack exceeds the 4194304-byte limit"));
    }
    let text = match crate::text::utf8_decode(document) {
        Some(t) => t,
        None => {
            return Err(validation_str("Text pack is not valid UTF-8"));
        },
    };
    let resolved_format = match source_format {
        Some(f) => f,
        None => sniff_source_format(text),
    };
    let mut payload = match parse_source(text, resolved_format, json) {
        Ok(p) => p,
        Err(e) => {
            return Err(e);
        },
    };
    match finalize_payload(&mut payload, resolved_format) {
        Ok(()) => Ok((payload, resolved_format)),
        Err(e) => Err(e),
    }
}

// ── Export ──

/// A library text as an export reads it.
#[derive(Debug, Clone)]
pub struct ExportableText {
    pub name: String,
    pub text: String,
    pub language: String,
}

/// Why an export of `texts` for `language` is refused, if it is.
pub open spec fn export_refusal(texts: Seq<ExportableText>, language: Option<Seq<char>>) -> Option<
    Seq<char>,
> {
    match language {
        Some(code) => if is_language_code(code) {
            None
        } else {
            Some("Text pack language is not a valid language code"@)
        },
        None => if exists|i: int, j: int|
            0 <= i < texts.len() && 0 <= j < texts.len() && (#[trigger] texts[i]).language@
                != (#[trigger] texts[j]).language@ {
            Some("Library mixes several languages; export requires one explicit language"@)
        } else {
            None
        },
    }
}

/// The texts an export takes: those in `language`, or all of them.
pub open spec fn export_scope(texts: Seq<ExportableText>, language: Option<Seq<char>>) -> Seq<
    ExportableText,
>
    decreases texts.len(),
{
    if texts.len() == 0 {
        Seq::empty()
    } else {
        let rest = export_scope(texts.drop_last(), language);
        match language {
            Some(code) => if texts.last().language@ == code {
                rest.push(texts.last())
            } else {
                rest
            },
            None => rest.push(texts.last()),
        }
    }
}

/// The language an export declares: that of its first text, else the one
/// asked for, else English.
pub open spec fn export_language(scope: Seq<ExportableText>, language: Option<Seq<char>>) -> Seq<char> {
    if scope.len() > 0 {
        scope[0].language@
    } else {
        match language {
            Some(code) => code,
            None => "en"@,
        }
    }
}

/// The language asked for, as a view.
pub open spec fn opt_str_view(language: Option<&str>) -> Option<Seq<char>> {
    match language {
        Some(s) => Some(s@),
        None => None,
    }
}

/// Checks the language an export asks for.
pub fn check_export_language(language: Option<&str>) -> (r: Result<(), DbError>)
    ensures
        r is Ok == (language matches Some(code) ==> is_language_code(code@)),
        r matches Err(e) ==> e matches DbError::Validation(m) && m@
            == "Text pack language is not a valid language code"@,
{
    match language {
        Some(code) => {
            if !valid_language_code(code) {
                return Err(validation_str("Text pack language is not a valid language code"));
            }
            Ok(())
        },
        None => Ok(()),
    }
}

/// Builds the pack of the library texts `texts` (at most
/// `MAX_TEXTS_PER_PACK`, read by the caller): those in `language`, or all
/// of them when no language is given, provided they share one language.
pub fn build_text_pack_export(
    texts: &[ExportableText],
    language: Option<&str>,
    application_version: &str,
    exported_at: &str,
) -> (r: Result<TextPackExportV1, DbError>)
    ensures
        r is Ok == (export_refusal(texts@, opt_str_view(language)) is None),
        r matches Err(e) ==> e matches DbError::Validation(m) && export_refusal(
            texts@,
            opt_str_view(language),
        ) == Some(m@),
        r matches Ok(pack) ==> {
            let scope = export_scope(texts@, opt_str_view(language));
            &&& pack.format@ == TEXT_PACK_FORMAT@
            &&& pack.schema_version == TEXT_PACK_SCHEMA_VERSION
            &&& pack.application_version@ == application_version@
            &&& pack.exported_at@ == exported_at@
            &&& pack.payload.language@ == export_language(scope, opt_str_view(language))
            &&& pack.payload.texts@.len() == scope.len()
            &&& forall|j: int|
                0 <= j < scope.len() ==> (#[trigger] pack.payload.texts@[j]).name@ == scope[j].name@
                    && pack.payload.texts@[j].text@ == scope[j].text@
        },
{
    match check_export_language(language) {
        Err(e) => {
            return Err(e);
        },
        Ok(()) => {},
    }
    if language.is_none() && texts.len() > 0 {
        let mut i: usize = 1;
        while i < texts.len()
            invariant
                1 <= i <= texts@.len(),
                language is None,
                forall|k: int| 0 <= k < i ==> (#[trigger] texts@[k]).language@ == texts@[0].language@,
            decreases texts.len() - i,
        {
            if !str_equals(texts[i].language.as_str(), texts[0].language.as_str()) {
                assert(texts@[i as int].language@ != texts@[0].language@);
                return Err(
                    validation_str(
                        "Library mixes several languages; export requires one explicit language",
                    ),
                );
            }
            i = i + 1;
        }
    }
    let ghost want = opt_str_view(language);
    let mut entries: Vec<TextPackEntryV1> = Vec::new();
    let mut first_language: Option<String> = None;
    let mut i: usize = 0;
    while i < texts.len()
        invariant
            i <= texts@.len(),
            want == opt_str_view(language),
            entries@.len() == export_scope(texts@.take(i as int), want).len(),
            forall|j: int|
                0 <= j < entries@.len() ==> (#[trigger] entries@[j]).name@ == export_scope(
                    texts@.take(i as int),
                    want,
                )[j].name@ && entries@[j].text@ == export_scope(texts@.take(i as int), want)[j].text@,
            match first_language {
                Some(l) => export_scope(texts@.take(i as int), want).len() > 0 && l@ == export_scope(
                    texts@.take(i as int),
                    want,
                )[0].language@,
                None => export_scope(texts@.take(i as int), want).len() == 0,
            },
        decreases texts.len() - i,
    {
        proof {
            assert(texts@.take(i + 1).drop_last() =~= texts@.take(i as int));
            assert(texts@.take(i + 1).last() == texts@[i as int]);
            lemma_export_scope_prefix(texts@.take(i + 1), want);
        }
        let takes = match language {
            Some(code) => str_equals(texts[i].language.as_str(), code),
            None => true,
        };
        if takes {
            entries.push(TextPackEntryV1 { name: texts[i].name.clone(), text: texts[i].text.clone() });
            if first_language.is_none() {
                first_language = Some(texts[i].language.clone());
            }
        }
        i = i + 1;
    }
    assert(texts@.take(i as int) =~= texts@);
    let detected = match first_language {
        Some(l) => l,
        None => match language {
            Some(code) => code.to_owned(),
            None => "en".to_owned(),
        },
    };
    Ok(
        TextPackExportV1 {
            format: TEXT_PACK_FORMAT.to_owned(),
            schema_version: TEXT_PACK_SCHEMA_VERSION,
            application_version: application_version.to_owned(),
            exported_at: exported_at.to_owned(),
            payload: TextPackPayloadV1 { language: detected, texts: entries },
        },
    )
}

/// The scope of a prefix is a prefix of the scope: its elements keep their
/// positions as more texts follow.
proof fn lemma_export_scope_prefix(texts: Seq<ExportableText>, language: Option<Seq<char>>)
    requires
        texts.len() > 0,
    ensures
        export_scope(texts.drop_last(), language).len() <= export_scope(texts, language).len(),
        forall|j: int|
            0 <= j < export_scope(texts.drop_last(), language).len() ==> export_scope(texts, language)[j]
                == #[trigger] export_scope(texts.drop_last(), language)[j],
{
}

// ── Import planning ──

/// A custom text already in the library: its id, name and language.
#[derive(Debug, Clone)]
pub struct LibraryText {
    pub id: i64,
    pub name: String,
    pub language: String,
}

/// The key under which names are compared: trimmed and lower-cased.
pub open spec fn normalized_name(name: Seq<char>) -> Seq<char> {
    lowercase(trim_seq(name))
}

/// Trims and lower-cases a name.
pub fn normalize_name(name: &str) -> (r: String)
    ensures
        r@ == normalized_name(name@),
{
    let cs = chars_of(name);
    let trimmed = trim_chars(cs.as_slice());
    let t = string_from_chars(trimmed.as_slice());
    str_to_lowercase(t.as_str())
}

/// Normalized names of the entries.
pub open spec fn name_keys(texts: Seq<TextPackEntryV1>) -> Seq<Seq<char>> {
    texts.map_values(|e: TextPackEntryV1| normalized_name(e.name@))
}

/// Positions of the first occurrence of each key, in order.
pub open spec fn first_positions(keys: Seq<Seq<char>>) -> Seq<int>
    decreases keys.len(),
{
    if keys.len() == 0 {
        Seq::empty()
    } else {
        let prev = first_positions(keys.drop_last());
        if keys.drop_last().contains(keys.last()) {
            prev
        } else {
            prev.push(keys.len() - 1)
        }
    }
}

fn contains_string(v: &Vec<String>, s: &String) -> (b: bool)
    ensures
        b == string_views(v@).contains(s@),
{
    let ghost vs = string_views(v@);
    let mut i: usize = 0;
    while i < v.len()
        invariant
            i <= v.len(),
            vs == string_views(v@),
            forall|j: int| 0 <= j < i ==> vs[j] != s@,
        decreases v.len() - i,
    {
        if v[i] == *s {
            assert(vs[i as int] == s@);
            return true;
        }
        i = i + 1;
    }
    false
}

/// The character sequences of a list of strings.
pub open spec fn string_views(v: Seq<String>) -> Seq<Seq<char>> {
    v.map_values(|x: String| x@)
}

/// The first entry of each normalized name, in order.
pub fn deduplicated_entries(texts: &[TextPackEntryV1]) -> (r: Vec<&TextPackEntryV1>)
    ensures
        r@.len() == first_positions(name_keys(texts@)).len(),
        forall|k: int|
            0 <= k < r@.len() ==> *r@[k] == texts@[first_positions(name_keys(texts@))[k]],
{
    let ghost keys = name_keys(texts@);
    let mut seen: Vec<String> = Vec::new();
    let mut out: Vec<&TextPackEntryV1> = Vec::new();
    let mut i: usize = 0;
    while i < texts.len()
        invariant
            i <= texts.len(),
            keys == name_keys(texts@),
            keys.len() == texts@.len(),
            forall|k: Seq<char>|
                string_views(seen@).contains(k) <==> keys.take(i as int).contains(k),
            out@.len() == first_positions(keys.take(i as int)).len(),
            forall|k: int|
                0 <= k < out@.len() ==> *out@[k] == texts@[first_positions(keys.take(i as int))[k]],
        decreases texts.len() - i,
    {
        let key = normalize_name(texts[i].name.as_str());
        let ghost prefix = keys.take(i as int);
        let ghost next = keys.take(i + 1);
        assert(next.drop_last() =~= prefix);
        assert(next.last() == keys[i as int]);
        assert(keys[i as int] == key@);
        let found = contains_string(&seen, &key);
        let ghost seen_before = string_views(seen@);
        assert forall|k: Seq<char>| next.contains(k) <==> (prefix.contains(k) || k == keys[i as int]) by {
            if next.contains(k) {
                let j = choose|j: int| 0 <= j < next.len() && next[j] == k;
                if j < i {
                    assert(prefix[j] == k);
                }
            }
            if prefix.contains(k) {
                let j = choose|j: int| 0 <= j < prefix.len() && prefix[j] == k;
                assert(next[j] == k);
            }
            if k == keys[i as int] {
                assert(next[i as int] == k);
            }
        }
        if !found {
            seen.push(key);
            out.push(&texts[i]);
            assert(string_views(seen@) =~= seen_before.push(keys[i as int]));
            assert forall|k: Seq<char>|
                string_views(seen@).contains(k) <==> (seen_before.contains(k) || k
                    == keys[i as int]) by {
                let sv = string_views(seen@);
                if sv.contains(k) {
                    let j = choose|j: int| 0 <= j < sv.len() && sv[j] == k;
                    if j < seen_before.len() {
                        assert(seen_before[j] == k);
                    }
                }
                if seen_before.contains(k) {
                    let j = choose|j: int| 0 <= j < seen_before.len() && seen_before[j] == k;
                    assert(sv[j] == k);
                }
                if k == keys[i as int] {
                    assert(sv[seen_before.len() as int] == k);
                }
            }
            assert forall|k: Seq<char>| string_views(seen@).contains(k) <==> next.contains(k) by {
                assert(seen_before.contains(k) <==> prefix.contains(k));
                assert(next.contains(k) <==> (prefix.contains(k) || k == keys[i as int]));
            }
        } else {
            assert(seen_before.contains(keys[i as int]));
            assert(prefix.contains(keys[i as int]));
            assert forall|k: Seq<char>| string_views(seen@).contains(k) <==> next.contains(k) by {
                if k == keys[i as int] {
                    assert(prefix.contains(k));
                }
            }
        }
        i = i + 1;
    }
    assert(keys.take(texts.len() as int) =~= keys);
    out
}

/// Number of library texts in `language`.
pub open spec fn count_in_language(existing: Seq<LibraryText>, language: Seq<char>) -> nat
    decreases existing.len(),
{
    if existing.len() == 0 {
        0
    } else {
        count_in_language(existing.drop_last(), language) + if existing.last().language@
            == language {
            1nat
        } else {
            0nat
        }
    }
}

/// Normalized names an import skips: for a merge, those of the library
/// texts in the pack language; none for a replace.
pub open spec fn known_names(
    existing: Seq<LibraryText>,
    language: Seq<char>,
    policy: TextPackImportPolicy,
) -> Set<Seq<char>> {
    if policy == TextPackImportPolicy::Merge {
        Set::new(
            |k: Seq<char>|
                exists|i: int|
                    0 <= i < existing.len() && existing[i].language@ == language
                        && normalized_name(#[trigger] existing[i].name@) == k,
        )
    } else {
        Set::empty()
    }
}

/// How many of the first occurrences have a known key.
pub open spec fn count_known(keys: Seq<Seq<char>>, firsts: Seq<int>, known: Set<Seq<char>>) -> nat
    decreases firsts.len(),
{
    if firsts.len() == 0 {
        0
    } else {
        count_known(keys, firsts.drop_last(), known) + if known.contains(keys[firsts.last()]) {
            1nat
        } else {
            0nat
        }
    }
}

proof fn lemma_first_positions_len(keys: Seq<Seq<char>>)
    ensures
        first_positions(keys).len() <= keys.len(),
    decreases keys.len(),
{
    if keys.len() > 0 {
        lemma_first_positions_len(keys.drop_last());
    }
}

proof fn lemma_first_positions_range(keys: Seq<Seq<char>>)
    ensures
        forall|j: int|
            0 <= j < first_positions(keys).len() ==> 0 <= #[trigger] first_positions(keys)[j]
                < keys.len(),
    decreases keys.len(),
{
    if keys.len() > 0 {
        lemma_first_positions_range(keys.drop_last());
        let prev = first_positions(keys.drop_last());
        assert forall|j: int|
            0 <= j < first_positions(keys).len() implies 0 <= #[trigger] first_positions(keys)[j]
                < keys.len() by {
            if j < prev.len() {
                assert(first_positions(keys)[j] == prev[j]);
            }
        }
    }
}

proof fn lemma_count_known_le(keys: Seq<Seq<char>>, firsts: Seq<int>, known: Set<Seq<char>>)
    ensures
        count_known(keys, firsts, known) <= firsts.len(),
    decreases firsts.len(),
{
    if firsts.len() > 0 {
        lemma_count_known_le(keys, firsts.drop_last(), known);
    }
}

proof fn lemma_count_in_language_le(existing: Seq<LibraryText>, language: Seq<char>)
    ensures
        count_in_language(existing, language) <= existing.len(),
    decreases existing.len(),
{
    if existing.len() > 0 {
        lemma_count_in_language_le(existing.drop_last(), language);
    }
}

proof fn lemma_count_known_none(keys: Seq<Seq<char>>, firsts: Seq<int>, known: Set<Seq<char>>)
    requires
        forall|k: Seq<char>| !known.contains(k),
    ensures
        count_known(keys, firsts, known) == 0,
    decreases firsts.len(),
{
    if firsts.len() > 0 {
        lemma_count_known_none(keys, firsts.drop_last(), known);
    }
}

proof fn lemma_count_known_all(keys: Seq<Seq<char>>, firsts: Seq<int>, known: Set<Seq<char>>)
    requires
        forall|j: int| 0 <= j < firsts.len() ==> known.contains(keys[#[trigger] firsts[j]]),
    ensures
        count_known(keys, firsts, known) == firsts.len(),
    decreases firsts.len(),
{
    if firsts.len() > 0 {
        let init = firsts.drop_last();
        assert forall|j: int| 0 <= j < init.len() implies known.contains(keys[#[trigger] init[j]]) by {
            assert(init[j] == firsts[j]);
        }
        assert(firsts.last() == firsts[firsts.len() - 1]);
        lemma_count_known_all(keys, init, known);
    }
}

/// A replace, or a merge into a library with no text in the pack's
/// language, skips nothing: every entry with a new normalized name is
/// inserted.
pub proof fn nothing_known_nothing_skipped(
    existing: Seq<LibraryText>,
    texts: Seq<TextPackEntryV1>,
    language: Seq<char>,
    policy: TextPackImportPolicy,
)
    requires
        policy == TextPackImportPolicy::Replace || forall|i: int|
            0 <= i < existing.len() ==> (#[trigger] existing[i]).language@ != language,
    ensures
        count_known(
            name_keys(texts),
            first_positions(name_keys(texts)),
            known_names(existing, language, policy),
        ) == 0,
{
    let known = known_names(existing, language, policy);
    assert forall|k: Seq<char>| !known.contains(k) by {
        if policy == TextPackImportPolicy::Merge && known.contains(k) {
            let i = choose|i: int|
                0 <= i < existing.len() && existing[i].language@ == language && normalized_name(
                    #[trigger] existing[i].name@,
                ) == k;
        }
    }
    lemma_count_known_none(name_keys(texts), first_positions(name_keys(texts)), known);
}

/// Merging a pack again inserts nothing: when every name in the pack
/// already exists, after normalization, among the library's texts in the
/// pack's language, every distinct entry is skipped.
pub proof fn merge_of_known_names_inserts_nothing(
    existing: Seq<LibraryText>,
    texts: Seq<TextPackEntryV1>,
    language: Seq<char>,
)
    requires
        forall|j: int|
            0 <= j < texts.len() ==> exists|i: int|
                0 <= i < existing.len() && (#[trigger] existing[i]).language@ == language
                    && normalized_name(existing[i].name@) == normalized_name(
                    (#[trigger] texts[j]).name@,
                ),
    ensures
        count_known(
            name_keys(texts),
            first_positions(name_keys(texts)),
            known_names(existing, language, TextPackImportPolicy::Merge),
        ) == first_positions(name_keys(texts)).len(),
{
    let keys = name_keys(texts);
    let firsts = first_positions(keys);
    let known = known_names(existing, language, TextPackImportPolicy::Merge);
    lemma_first_positions_range(keys);
    assert forall|j: int| 0 <= j < firsts.len() implies known.contains(keys[#[trigger] firsts[j]]) by {
        let p = firsts[j];
        assert(0 <= p < texts.len());
        assert(keys[p] == normalized_name(texts[p].name@));
        let i = choose|i: int|
            0 <= i < existing.len() && (#[trigger] existing[i]).language@ == language
                && normalized_name(existing[i].name@) == normalized_name(texts[p].name@);
        assert(normalized_name(existing[i].name@) == keys[p]);
    }
    lemma_count_known_all(keys, firsts, known);
}

/// Number of library texts in `language`.
fn texts_in_language(existing: &[LibraryText], language: &String) -> (n: usize)
    ensures
        n == count_in_language(existing@, language@),
{
    let mut n: usize = 0;
    let mut i: usize = 0;
    while i < existing.len()
        invariant
            i <= existing.len(),
            n == count_in_language(existing@.take(i as int), language@),
        decreases existing.len() - i,
    {
        assert(existing@.take(i + 1).drop_last() =~= existing@.take(i as int));
        proof {
            lemma_count_in_language_le(existing@.take(i as int), language@);
        }
        if existing[i].language == *language {
            n = n + 1;
        }
        i = i + 1;
    }
    assert(existing@.take(existing.len() as int) =~= existing@);
    n
}

/// Normalized names of the library texts in `language` when merging; none
/// when replacing.
fn known_name_list(existing: &[LibraryText], language: &String, policy: TextPackImportPolicy) -> (r:
    Vec<String>)
    ensures
        forall|k: Seq<char>|
            string_views(r@).contains(k) <==> known_names(
                existing@,
                language@,
                policy,
            ).contains(k),
{
    let mut known: Vec<String> = Vec::new();
    if policy == TextPackImportPolicy::Replace {
        assert(string_views(known@) =~= Seq::<Seq<char>>::empty());
        return known;
    }
    let mut i: usize = 0;
    while i < existing.len()
        invariant
            i <= existing.len(),
            policy == TextPackImportPolicy::Merge,
            forall|k: Seq<char>|
                string_views(known@).contains(k) <==> exists|j: int|
                    0 <= j < i && existing@[j].language@ == language@ && normalized_name(
                        #[trigger] existing@[j].name@,
                    ) == k,
        decreases existing.len() - i,
    {
        let ghost before = string_views(known@);
        if existing[i].language == *language {
            let key = normalize_name(existing[i].name.as_str());
            known.push(key);
            assert(string_views(known@) =~= before.push(key@));
            assert forall|k: Seq<char>|
                string_views(known@).contains(k) <==> exists|j: int|
                    0 <= j < i + 1 && existing@[j].language@ == language@ && normalized_name(
                        #[trigger] existing@[j].name@,
                    ) == k by {
                let kv = string_views(known@);
                if kv.contains(k) {
                    let m = choose|m: int| 0 <= m < kv.len() && kv[m] == k;
                    if m < before.len() {
                        assert(before[m] == k);
                        assert(before.contains(k));
                    } else {
                        assert(normalized_name(existing@[i as int].name@) == k);
                    }
                }
                if exists|j: int|
                    0 <= j < i + 1 && existing@[j].language@ == language@ && normalized_name(
                        #[trigger] existing@[j].name@,
                    ) == k {
                    let j = choose|j: int|
                        0 <= j < i + 1 && existing@[j].language@ == language@ && normalized_name(
                            #[trigger] existing@[j].name@,
                        ) == k;
                    if j < i {
                        assert(before.contains(k));
                        let m = choose|m: int| 0 <= m < before.len() && before[m] == k;
                        assert(kv[m] == k);
                    } else {
                        assert(kv[before.len() as int] == k);
                    }
                }
            }
        } else {
            assert forall|k: Seq<char>|
                string_views(known@).contains(k) <==> exists|j: int|
                    0 <= j < i + 1 && existing@[j].language@ == language@ && normalized_name(
                        #[trigger] existing@[j].name@,
                    ) == k by {
                if exists|j: int|
                    0 <= j < i + 1 && existing@[j].language@ == language@ && normalized_name(
                        #[trigger] existing@[j].name@,
                    ) == k {
                    let j = choose|j: int|
                        0 <= j < i + 1 && existing@[j].language@ == language@ && normalized_name(
                            #[trigger] existing@[j].name@,
                        ) == k;
                    assert(j < i);
                }
            }
        }
        i = i + 1;
    }
    known
}

/// Preview of an import into a library holding `existing`: counts of
/// incoming entries, of duplicates inside the pack (same normalized name),
/// of library texts in the pack language, and of the unique entries that
/// are inserted or, when merging, skipped because their normalized name
/// already exists in that language.
pub fn build_import_plan(
    existing: &[LibraryText],
    payload: &TextPackPayloadV1,
    source_format: TextPackSourceFormat,
    policy: TextPackImportPolicy,
) -> (plan: TextPackImportPlan)
    ensures
        ({
            let keys = name_keys(payload.texts@);
            let firsts = first_positions(keys);
            let known = known_names(existing@, payload.language@, policy);
            let in_language = count_in_language(existing@, payload.language@);
            let skipped = count_known(keys, firsts, known);
            &&& plan.policy == policy
            &&& plan.source_format == source_format
            &&& plan.language@ == payload.language@
            &&& plan.incoming == payload.texts@.len()
            &&& plan.duplicates_in_pack == payload.texts@.len() - firsts.len()
            &&& plan.existing_in_language == in_language
            &&& plan.to_skip == skipped
            &&& plan.to_insert == firsts.len() - skipped
            &&& plan.removed_by_replace == (if policy == TextPackImportPolicy::Replace {
                in_language
            } else {
                0
            })
        }),
{
    let ghost keys = name_keys(payload.texts@);
    let ghost firsts = first_positions(keys);
    let ghost known_set = known_names(existing@, payload.language@, policy);
    let in_language = texts_in_language(existing, &payload.language);
    let known = known_name_list(existing, &payload.language, policy);
    let unique = deduplicated_entries(payload.texts.as_slice());
    proof {
        lemma_first_positions_len(keys);
        lemma_first_positions_range(keys);
    }
    let mut skipped: usize = 0;
    let mut k: usize = 0;
    while k < unique.len()
        invariant
            k <= unique.len(),
            unique@.len() == firsts.len(),
            firsts == first_positions(keys),
            keys == name_keys(payload.texts@),
            known_set == known_names(existing@, payload.language@, policy),
            forall|j: int| 0 <= j < unique@.len() ==> *unique@[j] == payload.texts@[firsts[j]],
            forall|x: Seq<char>|
                string_views(known@).contains(x) <==> known_set.contains(x),
            skipped == count_known(keys, firsts.take(k as int), known_set),
            skipped <= k,
            forall|j: int| 0 <= j < firsts.len() ==> 0 <= #[trigger] firsts[j] < keys.len(),
            keys.len() == payload.texts@.len(),
        decreases unique.len() - k,
    {
        assert(firsts.take(k + 1).drop_last() =~= firsts.take(k as int));
        let key = normalize_name(unique[k].name.as_str());
        assert(key@ == keys[firsts[k as int]]) by {
            assert(*unique@[k as int] == payload.texts@[firsts[k as int]]);
        }
        if contains_string(&known, &key) {
            skipped = skipped + 1;
        }
        k = k + 1;
    }
    assert(firsts.take(unique.len() as int) =~= firsts);
    TextPackImportPlan {
        policy,
        source_format,
        language: payload.language.clone(),
        incoming: payload.texts.len(),
        duplicates_in_pack: payload.texts.len() - unique.len(),
        existing_in_language: in_language,
        to_insert: unique.len() - skipped,
        to_skip: skipped,
        removed_by_replace: if policy == TextPackImportPolicy::Replace {
            in_language
        } else {
            0
        },
    }
}

} // verus!

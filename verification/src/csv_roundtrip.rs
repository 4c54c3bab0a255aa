//! The CSV that the analytics export writes reads back, through the text
//! pack's CSV reader, as the rows it was written from.

use vstd::prelude::*;

use crate::analytics::{csv_cell, csv_cells, csv_lines, csv_text, double_quotes, needs_quotes};
use crate::text::join_seqs;
use crate::text_pack::{csv_rows, csv_scan, csv_start, csv_step, has_text, CsvScan};

verus! {

/// The scanner after `s`, starting from `st`.
spec fn scan_from(st: CsvScan, s: Seq<char>) -> CsvScan
    decreases s.len(),
{
    if s.len() == 0 {
        st
    } else {
        csv_step(scan_from(st, s.drop_last()), s.last())
    }
}

proof fn lemma_scan_from_start(s: Seq<char>)
    ensures
        csv_scan(s) == scan_from(csv_start(), s),
    decreases s.len(),
{
    if s.len() > 0 {
        lemma_scan_from_start(s.drop_last());
    }
}

proof fn lemma_scan_concat(st: CsvScan, a: Seq<char>, b: Seq<char>)
    ensures
        scan_from(st, a + b) == scan_from(scan_from(st, a), b),
    decreases b.len(),
{
    if b.len() == 0 {
        assert(a + b =~= a);
    } else {
        assert((a + b).drop_last() =~= a + b.drop_last());
        assert((a + b).last() == b.last());
        lemma_scan_concat(st, a, b.drop_last());
    }
}

proof fn lemma_scan_one(st: CsvScan, c: char)
    ensures
        scan_from(st, seq![c]) == csv_step(st, c),
{
    assert(seq![c].drop_last() =~= Seq::<char>::empty());
    assert(scan_from(st, Seq::<char>::empty()) == st);
    assert(seq![c].last() == c);
}

/// A field is about to start: nothing of it read, no quote open.
spec fn at_field_start(st: CsvScan) -> bool {
    &&& st.field.len() == 0
    &&& !st.field_started
    &&& !st.in_quotes
    &&& !st.quote_pending
}

/// A field `f` has been read to its end; a separator comes next.
spec fn at_field_end(st: CsvScan, f: Seq<char>) -> bool {
    &&& st.field == f
    &&& ((!st.in_quotes && !st.quote_pending) || (st.in_quotes && st.quote_pending))
}

proof fn lemma_quoted_body(st: CsvScan, s: Seq<char>)
    requires
        st.in_quotes,
        !st.quote_pending,
    ensures
        scan_from(st, double_quotes(s)) == (CsvScan { field: st.field + s, ..st }),
    decreases s.len(),
{
    if s.len() == 0 {
        assert(st.field + s =~= st.field);
    } else {
        let init = s.drop_last();
        lemma_quoted_body(st, init);
        let st1 = CsvScan { field: st.field + init, ..st };
        let tail = if s.last() == '"' {
            seq!['"', '"']
        } else {
            seq![s.last()]
        };
        lemma_scan_concat(st, double_quotes(init), tail);
        assert(double_quotes(s) == double_quotes(init) + tail);
        assert((st.field + init).push(s.last()) =~= st.field + s);
        if s.last() == '"' {
            assert(tail =~= seq!['"'] + seq!['"']);
            lemma_scan_concat(st1, seq!['"'], seq!['"']);
            lemma_scan_one(st1, '"');
            lemma_scan_one(csv_step(st1, '"'), '"');
        } else {
            lemma_scan_one(st1, s.last());
        }
    }
}

proof fn lemma_plain_body(st: CsvScan, s: Seq<char>)
    requires
        !st.in_quotes,
        !st.quote_pending,
        !s.contains('"'),
        !s.contains(','),
        !s.contains('\r'),
        !s.contains('\n'),
    ensures
        scan_from(st, s) == (CsvScan {
            field: st.field + s,
            field_started: st.field_started || s.len() > 0,
            ..st
        }),
    decreases s.len(),
{
    if s.len() == 0 {
        assert(st.field + s =~= st.field);
    } else {
        let init = s.drop_last();
        assert(!init.contains('"') && !init.contains(',') && !init.contains('\r') && !init.contains(
            '\n',
        )) by {
            assert forall|i: int| 0 <= i < init.len() implies init[i] == s[i] by {}
        }
        assert(s[s.len() - 1] == s.last());
        lemma_plain_body(st, init);
        assert(st.field + init + seq![s.last()] =~= st.field + s);
        assert((st.field + init).push(s.last()) =~= st.field + s);
    }
}

proof fn lemma_cell(st: CsvScan, c: Seq<char>)
    requires
        at_field_start(st),
        !c.contains('\r'),
    ensures
        at_field_end(scan_from(st, csv_cell(c)), c),
        scan_from(st, csv_cell(c)).row == st.row,
        scan_from(st, csv_cell(c)).rows == st.rows,
{
    if needs_quotes(c) {
        let open = seq!['"'];
        let body = double_quotes(c);
        assert(csv_cell(c) == open + body + seq!['"']);
        lemma_scan_concat(st, open + body, seq!['"']);
        lemma_scan_concat(st, open, body);
        lemma_scan_one(st, '"');
        let st1 = scan_from(st, open);
        assert(st1 == CsvScan { in_quotes: true, ..st });
        lemma_quoted_body(st1, c);
        assert(st.field + c =~= c);
        let st2 = scan_from(st1, body);
        lemma_scan_one(st2, '"');
    } else {
        lemma_plain_body(st, c);
        assert(st.field + c =~= c);
    }
}

/// The state after a separator: `,` keeps the row open, a line feed ends
/// it.
proof fn lemma_comma(st: CsvScan, f: Seq<char>)
    requires
        at_field_end(st, f),
    ensures
        at_field_start(csv_step(st, ',')),
        csv_step(st, ',').row == st.row.push(f),
        csv_step(st, ',').rows == st.rows,
{
}

proof fn lemma_newline(st: CsvScan, f: Seq<char>)
    requires
        at_field_end(st, f),
    ensures
        at_field_start(csv_step(st, '\n')),
        csv_step(st, '\n').row.len() == 0,
        csv_step(st, '\n').rows == (if has_text(st.row.push(f)) {
            st.rows.push(st.row.push(f))
        } else {
            st.rows
        }),
{
}

/// The cells as written in CSV.
spec fn written(cells: Seq<Seq<char>>) -> Seq<Seq<char>> {
    cells.map_values(|c: Seq<char>| csv_cell(c))
}

/// No cell holds a carriage return.
spec fn no_carriage_return(cells: Seq<Seq<char>>) -> bool {
    forall|j: int| 0 <= j < cells.len() ==> !(#[trigger] cells[j]).contains('\r')
}

proof fn lemma_row(st: CsvScan, cells: Seq<Seq<char>>)
    requires
        at_field_start(st),
        cells.len() >= 1,
        no_carriage_return(cells),
    ensures
        at_field_end(scan_from(st, join_seqs(written(cells), seq![','])), cells.last()),
        scan_from(st, join_seqs(written(cells), seq![','])).row == st.row + cells.drop_last(),
        scan_from(st, join_seqs(written(cells), seq![','])).rows == st.rows,
    decreases cells.len(),
{
    let w = written(cells);
    if cells.len() == 1 {
        assert(join_seqs(w, seq![',']) == w[0]);
        assert(cells[0] == cells.last());
        lemma_cell(st, cells[0]);
        assert(st.row + cells.drop_last() =~= st.row);
    } else {
        let init = cells.drop_last();
        assert(written(init) =~= w.drop_last());
        assert(no_carriage_return(init)) by {
            assert forall|j: int| 0 <= j < init.len() implies !(#[trigger] init[j]).contains('\r') by {
                assert(init[j] == cells[j]);
            }
        }
        lemma_row(st, init);
        let prefix = join_seqs(w.drop_last(), seq![',']);
        let st1 = scan_from(st, prefix);
        lemma_scan_concat(st, prefix + seq![','], w.last());
        lemma_scan_concat(st, prefix, seq![',']);
        assert(join_seqs(w, seq![',']) == prefix + seq![','] + w.last());
        lemma_comma(st1, init.last());
        let st2 = csv_step(st1, ',');
        lemma_scan_one(st1, ',');
        assert(!cells[cells.len() - 1].contains('\r'));
        assert(cells[cells.len() - 1] == cells.last());
        assert(w.last() == csv_cell(cells.last()));
        lemma_cell(st2, cells.last());
        assert(st.row + init.drop_last() + seq![init.last()] =~= st.row + cells.drop_last());
        assert((st.row + init.drop_last()).push(init.last()) =~= st.row + cells.drop_last());
    }
}

/// The cell texts of a row.
pub open spec fn row_texts(r: Vec<String>) -> Seq<Seq<char>> {
    r@.map_values(|c: String| c@)
}

/// Rows the CSV reader gives back unchanged: each has a cell, some cell is
/// not blank (the reader drops blank rows), and no cell holds a carriage
/// return (the reader drops those outside quotes).
pub open spec fn csv_safe(rows: Seq<Vec<String>>) -> bool {
    forall|i: int|
        0 <= i < rows.len() ==> {
            let cells = row_texts(#[trigger] rows[i]);
            &&& cells.len() >= 1
            &&& has_text(cells)
            &&& forall|j: int| 0 <= j < cells.len() ==> !(#[trigger] cells[j]).contains('\r')
        }
}

proof fn lemma_lines(rows: Seq<Vec<String>>)
    requires
        rows.len() >= 1,
        csv_safe(rows),
    ensures
        at_field_end(
            scan_from(csv_start(), join_seqs(csv_lines(rows), seq!['\n'])),
            row_texts(rows.last()).last(),
        ),
        scan_from(csv_start(), join_seqs(csv_lines(rows), seq!['\n'])).row == row_texts(
            rows.last(),
        ).drop_last(),
        scan_from(csv_start(), join_seqs(csv_lines(rows), seq!['\n'])).rows == rows.drop_last().map_values(
            |r: Vec<String>| row_texts(r),
        ),
    decreases rows.len(),
{
    let lines = csv_lines(rows);
    let last = row_texts(rows.last());
    assert(rows[rows.len() - 1] == rows.last());
    assert(no_carriage_return(last)) by {
        assert forall|j: int| 0 <= j < last.len() implies !(#[trigger] last[j]).contains('\r') by {
            assert(row_texts(rows[rows.len() - 1]) == last);
        }
    }
    assert(csv_cells(rows.last()@) =~= written(last));
    assert(lines.last() == join_seqs(written(last), seq![',']));
    if rows.len() == 1 {
        assert(join_seqs(lines, seq!['\n']) == lines[0]);
        let st = csv_start();
        lemma_row(st, last);
        assert(st.row + last.drop_last() =~= last.drop_last());
        assert(rows.drop_last().map_values(|r: Vec<String>| row_texts(r)) =~= Seq::empty());
    } else {
        let init = rows.drop_last();
        assert(csv_safe(init)) by {
            assert forall|i: int| 0 <= i < init.len() implies ({
                let cells = row_texts(#[trigger] init[i]);
                &&& cells.len() >= 1
                &&& has_text(cells)
                &&& forall|j: int| 0 <= j < cells.len() ==> !(#[trigger] cells[j]).contains('\r')
            }) by {
                assert(init[i] == rows[i]);
            }
        }
        assert(csv_lines(init) =~= lines.drop_last());
        lemma_lines(init);
        let prefix = join_seqs(lines.drop_last(), seq!['\n']);
        let st1 = scan_from(csv_start(), prefix);
        let prev = row_texts(init.last());
        lemma_scan_concat(csv_start(), prefix + seq!['\n'], lines.last());
        lemma_scan_concat(csv_start(), prefix, seq!['\n']);
        assert(join_seqs(lines, seq!['\n']) == prefix + seq!['\n'] + lines.last());
        lemma_newline(st1, prev.last());
        let st2 = csv_step(st1, '\n');
        lemma_scan_one(st1, '\n');
        assert(init[init.len() - 1] == init.last());
        assert(prev.len() >= 1 && has_text(prev));
        assert(prev.drop_last().push(prev.last()) =~= prev);
        lemma_row(st2, last);
        assert(st2.row + last.drop_last() =~= last.drop_last());
        assert(init.drop_last().map_values(|r: Vec<String>| row_texts(r)).push(prev)
            =~= init.map_values(|r: Vec<String>| row_texts(r)));
    }
}

/// The CSV export reads back through the text pack's CSV reader as the
/// rows it was written from, cell for cell, whenever every row has a cell
/// that is not blank and no cell holds a carriage return.
pub proof fn csv_export_reads_back(rows: Seq<Vec<String>>)
    requires
        csv_safe(rows),
    ensures
        csv_rows(csv_text(rows)) == Some(rows.map_values(|r: Vec<String>| row_texts(r))),
{
    lemma_scan_from_start(csv_text(rows));
    if rows.len() == 0 {
        assert(csv_lines(rows).len() == 0);
        assert(rows.map_values(|r: Vec<String>| row_texts(r)) =~= Seq::empty());
    } else {
        lemma_lines(rows);
        let st = scan_from(csv_start(), csv_text(rows));
        let last = row_texts(rows.last());
        assert(rows[rows.len() - 1] == rows.last());
        assert(last.len() >= 1 && has_text(last));
        assert(st.row.push(st.field) =~= last);
        if st.field.len() == 0 && st.row.len() == 0 {
            assert(last.len() == 1);
            let i = choose|i: int| 0 <= i < last.len() && crate::text::trim_seq(#[trigger] last[i]).len() > 0;
            assert(last[i] == st.field);
            assert(crate::text::trim_seq(st.field) =~= st.field) by {
                assert(st.field =~= Seq::<char>::empty());
                crate::text::lemma_trim_empty_iff_blank(st.field);
            }
        }
        assert(rows.drop_last().map_values(|r: Vec<String>| row_texts(r)).push(last)
            =~= rows.map_values(|r: Vec<String>| row_texts(r)));
    }
}

} // verus!

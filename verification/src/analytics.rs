//! Analytics: timeline windows, achievements, text exports and session
//! replays.
//!
//! Speeds and percentages are derived from these counts by the caller; the
//! insight rules, which compare fractional averages, stay outside too.

use vstd::prelude::*;

use crate::text::{
    append_chars, append_str, chars_of, join_seqs, lemma_join_step, repeat_seq, string_from_chars,
};

verus! {

// ── Timeline windows ──

/// The keystrokes of one timeline window: when it starts, how many were
/// typed in it, and how many of those were correct.
#[derive(Debug, Clone, Copy, PartialEq, Eq, Structural)]
pub struct TimelineWindow {
    pub timestamp_ms: u64,
    pub correct: usize,
    pub total: usize,
}

/// Whether keystroke `i` counts as correct: `correct` may be shorter than
/// the keystrokes, missing entries count as wrong.
pub open spec fn marked_correct(correct: Seq<bool>, i: int) -> bool {
    i < correct.len() && correct[i]
}

/// (keystrokes, correct keystrokes) among the first `n` keystrokes whose
/// time lies in `[from, to)`.
pub open spec fn window_counts(times: Seq<u64>, correct: Seq<bool>, from: int, to: int, n: int) -> (
    nat,
    nat,
)
    decreases n,
{
    if n <= 0 {
        (0, 0)
    } else {
        let before = window_counts(times, correct, from, to, n - 1);
        if from <= times[n - 1] && times[n - 1] < to {
            (before.0 + 1, before.1 + if marked_correct(correct, n - 1) {
                1nat
            } else {
                0nat
            })
        } else {
            before
        }
    }
}

/// The non-empty windows of width `width` from `start` on, while a window
/// starts before `end`.
pub open spec fn windows_from(times: Seq<u64>, correct: Seq<bool>, start: int, end: int, width: int) -> Seq<
    (int, nat, nat),
>
    decreases if end > start { end - start } else { 0 },
{
    if start >= end || width <= 0 {
        Seq::empty()
    } else {
        let (total, good) = window_counts(times, correct, start, start + width, times.len() as int);
        let rest = windows_from(times, correct, start + width, end, width);
        if total > 0 {
            seq![(start, good, total)] + rest
        } else {
            rest
        }
    }
}

/// Every window that starts before `end` can also be ended within `u64`.
pub open spec fn windows_fit(start: int, end: int, width: int) -> bool
    decreases if end > start { end - start } else { 0 },
{
    if start >= end || width <= 0 {
        true
    } else {
        start + width <= u64::MAX && windows_fit(start + width, end, width)
    }
}

/// The view of a window.
pub open spec fn window_view(w: TimelineWindow) -> (int, nat, nat) {
    (w.timestamp_ms as int, w.correct as nat, w.total as nat)
}

fn count_window(times: &[u64], correct: &[bool], from: u64, to: u64) -> (r: (usize, usize))
    ensures
        (r.0 as nat, r.1 as nat) == window_counts(times@, correct@, from as int, to as int, times@.len() as int),
{
    let mut total: usize = 0;
    let mut good: usize = 0;
    let mut i: usize = 0;
    while i < times.len()
        invariant
            i <= times@.len(),
            (total as nat, good as nat) == window_counts(times@, correct@, from as int, to as int, i as int),
            good <= total <= i,
        decreases times.len() - i,
    {
        let t = times[i];
        if from <= t && t < to {
            total = total + 1;
            if i < correct.len() && correct[i] {
                good = good + 1;
            }
        }
        i = i + 1;
    }
    (total, good)
}

/// Splits keystroke times into windows of `window_ms` from the first
/// keystroke, while a window starts before the last keystroke, and counts
/// the keystrokes and correct keystrokes of each non-empty window.
pub fn timeline_windows(keystroke_times: &[u64], correct_count: &[bool], window_ms: u64) -> (r: Vec<
    TimelineWindow,
>)
    requires
        keystroke_times@.len() > 0 && keystroke_times@[0] < keystroke_times@.last() ==> window_ms
            > 0,
        keystroke_times@.len() > 0 ==> windows_fit(
            keystroke_times@[0] as int,
            keystroke_times@.last() as int,
            window_ms as int,
        ),
    ensures
        keystroke_times@.len() == 0 ==> r@.len() == 0,
        keystroke_times@.len() > 0 ==> r@.map_values(|w: TimelineWindow| window_view(w))
            == windows_from(
            keystroke_times@,
            correct_count@,
            keystroke_times@[0] as int,
            keystroke_times@.last() as int,
            window_ms as int,
        ),
{
    let mut points: Vec<TimelineWindow> = Vec::new();
    if keystroke_times.len() == 0 {
        return points;
    }
    let start = keystroke_times[0];
    let end = keystroke_times[keystroke_times.len() - 1];
    let ghost all = windows_from(keystroke_times@, correct_count@, start as int, end as int, window_ms as int);
    let mut window_start = start;
    while window_start < end
        invariant
            window_start < end ==> window_ms > 0,
            start < end ==> window_ms > 0,
            windows_fit(window_start as int, end as int, window_ms as int),
            points@.map_values(|w: TimelineWindow| window_view(w)) + windows_from(
                keystroke_times@,
                correct_count@,
                window_start as int,
                end as int,
                window_ms as int,
            ) == all,
        decreases if end > window_start { end - window_start } else { 0 },
    {
        let window_end = window_start + window_ms;
        let (total, good) = count_window(keystroke_times, correct_count, window_start, window_end);
        let ghost before = points@;
        let ghost rest = windows_from(keystroke_times@, correct_count@, window_end as int, end as int, window_ms as int);
        if total > 0 {
            points.push(TimelineWindow { timestamp_ms: window_start, correct: good, total });
            assert(points@.map_values(|w: TimelineWindow| window_view(w)) =~= before.map_values(
                |w: TimelineWindow| window_view(w),
            ).push((window_start as int, good as nat, total as nat)));
            assert(points@.map_values(|w: TimelineWindow| window_view(w)) + rest =~= before.map_values(
                |w: TimelineWindow| window_view(w),
            ) + (seq![(window_start as int, good as nat, total as nat)] + rest));
        }
        window_start = window_end;
    }
    assert(windows_from(keystroke_times@, correct_count@, window_start as int, end as int, window_ms as int)
        =~= Seq::<(int, nat, nat)>::empty());
    assert(points@.map_values(|w: TimelineWindow| window_view(w)) =~= all);
    points
}

// ── Markdown export ──

/// A character of a table cell as written in Markdown: pipes are escaped
/// and line breaks become spaces.
pub open spec fn escape_cell_char(c: char) -> Seq<char> {
    if c == '|' {
        seq!['\\', '|']
    } else if c == '\n' {
        seq![' ']
    } else {
        seq![c]
    }
}

/// A table cell as written in Markdown.
pub open spec fn escape_markdown_seq(s: Seq<char>) -> Seq<char>
    decreases s.len(),
{
    if s.len() == 0 {
        Seq::empty()
    } else {
        escape_markdown_seq(s.drop_last()) + escape_cell_char(s.last())
    }
}

/// The escaped cells of a row.
pub open spec fn escaped_cells(row: Seq<String>) -> Seq<Seq<char>> {
    row.map_values(|c: String| escape_markdown_seq(c@))
}

/// One Markdown table line for a row of cells.
pub open spec fn markdown_row(row: Seq<String>) -> Seq<char> {
    "| "@ + join_seqs(escaped_cells(row), " | "@) + " |\n"@
}

/// The Markdown lines of the given rows, one after the other.
pub open spec fn markdown_rows(rows: Seq<Vec<String>>) -> Seq<char>
    decreases rows.len(),
{
    if rows.len() == 0 {
        Seq::empty()
    } else {
        markdown_rows(rows.drop_last()) + markdown_row(rows.last()@)
    }
}

/// One Markdown line of the summary table.
pub open spec fn summary_line(label: &str, value: String) -> Seq<char> {
    "| "@ + escape_markdown_seq(label@) + " | "@ + escape_markdown_seq(value@) + " |\n"@
}

/// The Markdown lines of the summary entries, one after the other.
pub open spec fn summary_lines(summary: Seq<(&str, String)>) -> Seq<char>
    decreases summary.len(),
{
    if summary.len() == 0 {
        Seq::empty()
    } else {
        summary_lines(summary.drop_last()) + summary_line(summary.last().0, summary.last().1)
    }
}

/// The summary section; nothing when there is no summary.
pub open spec fn summary_section(summary: Seq<(&str, String)>) -> Seq<char> {
    if summary.len() == 0 {
        Seq::empty()
    } else {
        "## Summary\n\n"@ + "| Metric | Value |\n|---|---|\n"@ + summary_lines(summary) + "\n"@
    }
}

/// The table section: the first row is the header; nothing without rows.
pub open spec fn table_section(rows: Seq<Vec<String>>) -> Seq<char> {
    if rows.len() == 0 {
        Seq::empty()
    } else {
        "## Tests\n\n"@ + markdown_row(rows[0]@) + "|"@ + repeat_seq("---|"@, rows[0]@.len())
            + "\n"@ + markdown_rows(rows.drop_first()) + "\n"@
    }
}

/// The whole Markdown document.
pub open spec fn markdown_document(rows: Seq<Vec<String>>, summary: Seq<(&str, String)>) -> Seq<
    char,
> {
    "# Racoon Typper export\n\n"@ + summary_section(summary) + table_section(rows)
}

/// Escapes one table cell.
fn escape_markdown_cell(cell: &str) -> (r: Vec<char>)
    ensures
        r@ == escape_markdown_seq(cell@),
{
    let cs = chars_of(cell);
    let mut out: Vec<char> = Vec::new();
    let mut i: usize = 0;
    while i < cs.len()
        invariant
            i <= cs.len(),
            cs@ == cell@,
            out@ == escape_markdown_seq(cs@.take(i as int)),
        decreases cs.len() - i,
    {
        let c = cs[i];
        assert(cs@.take(i + 1).drop_last() =~= cs@.take(i as int));
        if c == '|' {
            out.push('\\');
            out.push('|');
        } else if c == '\n' {
            out.push(' ');
        } else {
            out.push(c);
        }
        i = i + 1;
        assert(out@ =~= escape_markdown_seq(cs@.take(i as int)));
    }
    assert(cs@.take(cs.len() as int) =~= cs@);
    out
}

/// Appends one Markdown table line for `row`.
fn append_markdown_row(out: &mut Vec<char>, row: &Vec<String>)
    ensures
        final(out)@ == old(out)@ + markdown_row(row@),
{
    let ghost start = out@;
    let ghost cells = escaped_cells(row@);
    append_str(out, "| ");
    let mut j: usize = 0;
    while j < row.len()
        invariant
            j <= row.len(),
            cells == escaped_cells(row@),
            cells.len() == row@.len(),
            out@ == start + "| "@ + join_seqs(cells.take(j as int), " | "@),
        decreases row.len() - j,
    {
        proof {
            lemma_join_step(cells, " | "@, j as int);
        }
        if j > 0 {
            append_str(out, " | ");
        }
        let esc = escape_markdown_cell(row[j].as_str());
        append_chars(out, esc.as_slice());
        j = j + 1;
        assert(out@ =~= start + "| "@ + join_seqs(cells.take(j as int), " | "@));
    }
    assert(cells.take(row.len() as int) =~= cells);
    append_str(out, " |\n");
    assert(out@ =~= start + markdown_row(row@));
}

/// Renders rows and summary entries as a Markdown document: a title, a
/// summary table when there are entries, and a table whose first row is
/// the header when there are rows. Pipes in cells are escaped and line
/// breaks become spaces.
pub fn export_markdown(rows: &[Vec<String>], summary: &[(&str, String)]) -> (r: String)
    ensures
        r@ == markdown_document(rows@, summary@),
{
    let mut out: Vec<char> = Vec::new();
    append_str(&mut out, "# Racoon Typper export\n\n");
    let ghost head = out@;
    if summary.len() > 0 {
        append_str(&mut out, "## Summary\n\n");
        append_str(&mut out, "| Metric | Value |\n|---|---|\n");
        let ghost pre = out@;
        let mut i: usize = 0;
        while i < summary.len()
            invariant
                i <= summary.len(),
                out@ == pre + summary_lines(summary@.take(i as int)),
            decreases summary.len() - i,
        {
            assert(summary@.take(i + 1).drop_last() =~= summary@.take(i as int));
            let (label, value) = &summary[i];
            append_str(&mut out, "| ");
            let el = escape_markdown_cell(label);
            append_chars(&mut out, el.as_slice());
            append_str(&mut out, " | ");
            let ev = escape_markdown_cell(value.as_str());
            append_chars(&mut out, ev.as_slice());
            append_str(&mut out, " |\n");
            i = i + 1;
            assert(out@ =~= pre + summary_lines(summary@.take(i as int)));
        }
        assert(summary@.take(summary.len() as int) =~= summary@);
        append_str(&mut out, "\n");
    }
    assert(out@ =~= head + summary_section(summary@));
    let ghost mid = out@;
    if rows.len() > 0 {
        append_str(&mut out, "## Tests\n\n");
        let header = &rows[0];
        append_markdown_row(&mut out, header);
        append_str(&mut out, "|");
        let ghost before_rule = out@;
        let mut k: usize = 0;
        while k < header.len()
            invariant
                k <= header.len(),
                out@ == before_rule + repeat_seq("---|"@, k as nat),
            decreases header.len() - k,
        {
            append_str(&mut out, "---|");
            k = k + 1;
        }
        append_str(&mut out, "\n");
        let ghost body_start = out@;
        let ghost body = rows@.drop_first();
        let mut i: usize = 1;
        while i < rows.len()
            invariant
                1 <= i <= rows.len(),
                body == rows@.drop_first(),
                out@ == body_start + markdown_rows(body.take(i - 1)),
            decreases rows.len() - i,
        {
            assert(body.take(i as int).drop_last() =~= body.take(i - 1));
            assert(body[i - 1] == rows@[i as int]);
            append_markdown_row(&mut out, &rows[i]);
            i = i + 1;
            assert(out@ =~= body_start + markdown_rows(body.take(i - 1)));
        }
        assert(body.take(rows.len() - 1) =~= body);
        append_str(&mut out, "\n");
    }
    assert(out@ =~= mid + table_section(rows@));
    assert(out@ =~= markdown_document(rows@, summary@));
    string_from_chars(out.as_slice())
}

// ── CSV export ──

/// A cell must be quoted when it holds a comma, a quote or a line break.
pub open spec fn needs_quotes(s: Seq<char>) -> bool {
    s.contains(',') || s.contains('"') || s.contains('\n')
}

/// `s` with every quote doubled.
pub open spec fn double_quotes(s: Seq<char>) -> Seq<char>
    decreases s.len(),
{
    if s.len() == 0 {
        Seq::empty()
    } else {
        double_quotes(s.drop_last()) + (if s.last() == '"' {
            seq!['"', '"']
        } else {
            seq![s.last()]
        })
    }
}

/// A cell as written in CSV.
pub open spec fn csv_cell(s: Seq<char>) -> Seq<char> {
    if needs_quotes(s) {
        seq!['"'] + double_quotes(s) + seq!['"']
    } else {
        s
    }
}

/// The cells of a row as written in CSV.
pub open spec fn csv_cells(row: Seq<String>) -> Seq<Seq<char>> {
    row.map_values(|c: String| csv_cell(c@))
}

/// The CSV lines of the rows.
pub open spec fn csv_lines(rows: Seq<Vec<String>>) -> Seq<Seq<char>> {
    rows.map_values(|r: Vec<String>| join_seqs(csv_cells(r@), seq![',']))
}

/// The whole CSV text: cells joined by commas, rows by line breaks.
pub open spec fn csv_text(rows: Seq<Vec<String>>) -> Seq<char> {
    join_seqs(csv_lines(rows), seq!['\n'])
}

fn contains_char(cs: &Vec<char>, c: char) -> (r: bool)
    ensures
        r == cs@.contains(c),
{
    let mut i: usize = 0;
    while i < cs.len()
        invariant
            i <= cs.len(),
            forall|j: int| 0 <= j < i ==> cs@[j] != c,
        decreases cs.len() - i,
    {
        if cs[i] == c {
            assert(cs@[i as int] == c);
            return true;
        }
        i = i + 1;
    }
    false
}

/// Appends one CSV cell.
fn append_csv_cell(out: &mut Vec<char>, cell: &str)
    ensures
        final(out)@ == old(out)@ + csv_cell(cell@),
{
    let cs = chars_of(cell);
    let quoted = contains_char(&cs, ',') || contains_char(&cs, '"') || contains_char(&cs, '\n');
    if !quoted {
        append_chars(out, cs.as_slice());
        return;
    }
    let ghost start = out@;
    out.push('"');
    let mut i: usize = 0;
    while i < cs.len()
        invariant
            i <= cs.len(),
            cs@ == cell@,
            out@ == start + seq!['"'] + double_quotes(cs@.take(i as int)),
        decreases cs.len() - i,
    {
        assert(cs@.take(i + 1).drop_last() =~= cs@.take(i as int));
        let c = cs[i];
        if c == '"' {
            out.push('"');
            out.push('"');
        } else {
            out.push(c);
        }
        i = i + 1;
        assert(out@ =~= start + seq!['"'] + double_quotes(cs@.take(i as int)));
    }
    assert(cs@.take(cs.len() as int) =~= cs@);
    out.push('"');
    assert(out@ =~= start + csv_cell(cell@));
}

/// Renders rows as CSV: cells are joined by commas and rows by line
/// breaks; a cell holding a comma, a quote or a line break is quoted, with
/// its quotes doubled.
pub fn export_csv(rows: &[Vec<String>]) -> (r: String)
    ensures
        r@ == csv_text(rows@),
{
    let ghost lines = csv_lines(rows@);
    let mut out: Vec<char> = Vec::new();
    let mut i: usize = 0;
    while i < rows.len()
        invariant
            i <= rows.len(),
            lines == csv_lines(rows@),
            lines.len() == rows@.len(),
            out@ == join_seqs(lines.take(i as int), seq!['\n']),
        decreases rows.len() - i,
    {
        proof {
            lemma_join_step(lines, seq!['\n'], i as int);
        }
        if i > 0 {
            out.push('\n');
        }
        let ghost before = out@;
        let row = &rows[i];
        let ghost cells = csv_cells(row@);
        let mut j: usize = 0;
        while j < row.len()
            invariant
                j <= row.len(),
                cells == csv_cells(row@),
                cells.len() == row@.len(),
                out@ == before + join_seqs(cells.take(j as int), seq![',']),
            decreases row.len() - j,
        {
            proof {
                lemma_join_step(cells, seq![','], j as int);
            }
            if j > 0 {
                out.push(',');
            }
            append_csv_cell(&mut out, row[j].as_str());
            j = j + 1;
            assert(out@ =~= before + join_seqs(cells.take(j as int), seq![',']));
        }
        assert(cells.take(row.len() as int) =~= cells);
        assert(lines[i as int] == join_seqs(cells, seq![',']));
        i = i + 1;
        assert(out@ =~= join_seqs(lines.take(i as int), seq!['\n']));
    }
    assert(lines.take(rows.len() as int) =~= lines);
    string_from_chars(out.as_slice())
}

// ── Session replay ──

/// One keystroke of a replay.
#[derive(Debug, Clone)]
pub struct ReplayEvent {
    pub timestamp_ms: u64,
    pub key: String,
    pub expected: String,
    pub correct: bool,
}

/// The largest timestamp among the events; 0 without events.
pub open spec fn max_timestamp(events: Seq<ReplayEvent>) -> u64
    decreases events.len(),
{
    if events.len() == 0 {
        0
    } else {
        let rest = max_timestamp(events.drop_last());
        if events.last().timestamp_ms > rest {
            events.last().timestamp_ms
        } else {
            rest
        }
    }
}

/// A full replay of a session.
#[derive(Debug, Clone)]
pub struct SessionReplay {
    pub events: Vec<ReplayEvent>,
    pub total_duration_ms: u64,
    pub text: String,
}

impl SessionReplay {
    /// The duration is the largest event timestamp.
    pub open spec fn wf(&self) -> bool {
        self.total_duration_ms == max_timestamp(self.events@)
    }

    /// An empty replay of `text`.
    pub fn new(text: String) -> (r: SessionReplay)
        ensures
            r.wf(),
            r.events@.len() == 0,
            r.total_duration_ms == 0,
            r.text@ == text@,
    {
        SessionReplay { events: Vec::new(), total_duration_ms: 0, text }
    }

    /// Appends one keystroke; the duration grows to its timestamp when it
    /// is later than every earlier one.
    pub fn add_event(&mut self, timestamp_ms: u64, key: &str, expected: &str, correct: bool)
        ensures
            final(self).events@.len() == old(self).events@.len() + 1,
            final(self).events@.drop_last() == old(self).events@,
            final(self).events@.last().timestamp_ms == timestamp_ms,
            final(self).events@.last().key@ == key@,
            final(self).events@.last().expected@ == expected@,
            final(self).events@.last().correct == correct,
            final(self).total_duration_ms == (if timestamp_ms > old(self).total_duration_ms {
                timestamp_ms
            } else {
                old(self).total_duration_ms
            }),
            final(self).text == old(self).text,
            old(self).wf() ==> final(self).wf(),
    {
        self.events.push(
            ReplayEvent {
                timestamp_ms,
                key: key.to_owned(),
                expected: expected.to_owned(),
                correct,
            },
        );
        if timestamp_ms > self.total_duration_ms {
            self.total_duration_ms = timestamp_ms;
        }
        assert(self.events@.drop_last() =~= old(self).events@);
    }
}

// ── Achievements ──

/// An achievement and whether it is unlocked.
#[derive(Debug, Clone)]
pub struct Achievement {
    pub id: String,
    pub name: String,
    pub description: String,
    pub unlocked: bool,
    pub unlocked_at: Option<String>,
}

/// Personal insight shown to the user.
#[derive(Debug, Clone)]
pub struct Insight {
    pub level: String,
    pub title: String,
    pub message: String,
}

/// What unlocks an achievement: thresholds on completed tests, best speed
/// in whole words per minute, best accuracy in whole percent, longest
/// streak in days and completed lessons.
#[derive(Debug, Clone, Copy, PartialEq, Eq)]
pub enum Requirement {
    Tests(i64),
    Wpm(u64),
    Accuracy(u64),
    Streak(i64),
    Lessons(i64),
    WpmAndAccuracy(u64, u64),
    TestsAndWpm(i64, u64),
    StreakAndLessons(i64, i64),
    AccuracyAndTests(u64, i64),
}

/// Whether `req` holds for the given totals.
pub open spec fn requirement_met(
    req: Requirement,
    total_tests: i64,
    best_wpm: u64,
    best_accuracy: u64,
    longest_streak: i64,
    lessons_completed: i64,
) -> bool {
    match req {
        Requirement::Tests(n) => total_tests >= n,
        Requirement::Wpm(w) => best_wpm >= w,
        Requirement::Accuracy(a) => best_accuracy >= a,
        Requirement::Streak(d) => longest_streak >= d,
        Requirement::Lessons(n) => lessons_completed >= n,
        Requirement::WpmAndAccuracy(w, a) => best_wpm >= w && best_accuracy >= a,
        Requirement::TestsAndWpm(n, w) => total_tests >= n && best_wpm >= w,
        Requirement::StreakAndLessons(d, n) => longest_streak >= d && lessons_completed >= n,
        Requirement::AccuracyAndTests(a, n) => best_accuracy >= a && total_tests >= n,
    }
}

impl Requirement {
    /// Whether the requirement holds for the given totals.
    pub fn is_met(
        &self,
        total_tests: i64,
        best_wpm: u64,
        best_accuracy: u64,
        longest_streak: i64,
        lessons_completed: i64,
    ) -> (b: bool)
        ensures
            b == requirement_met(
                *self,
                total_tests,
                best_wpm,
                best_accuracy,
                longest_streak,
                lessons_completed,
            ),
    {
        match *self {
            Requirement::Tests(n) => total_tests >= n,
            Requirement::Wpm(w) => best_wpm >= w,
            Requirement::Accuracy(a) => best_accuracy >= a,
            Requirement::Streak(d) => longest_streak >= d,
            Requirement::Lessons(n) => lessons_completed >= n,
            Requirement::WpmAndAccuracy(w, a) => best_wpm >= w && best_accuracy >= a,
            Requirement::TestsAndWpm(n, w) => total_tests >= n && best_wpm >= w,
            Requirement::StreakAndLessons(d, n) => longest_streak >= d && lessons_completed >= n,
            Requirement::AccuracyAndTests(a, n) => best_accuracy >= a && total_tests >= n,
        }
    }
}

/// A requirement holds exactly when every threshold it names is reached: a
/// single requirement by its own total, a combined one only when both of
/// its totals reach their thresholds.
pub proof fn requirements_need_every_threshold(
    req: Requirement,
    total_tests: i64,
    best_wpm: u64,
    best_accuracy: u64,
    longest_streak: i64,
    lessons_completed: i64,
)
    ensures
        ({
            let met = requirement_met(
                req,
                total_tests,
                best_wpm,
                best_accuracy,
                longest_streak,
                lessons_completed,
            );
            match req {
                Requirement::Tests(n) => met <==> total_tests >= n,
                Requirement::Wpm(w) => met <==> best_wpm >= w,
                Requirement::Accuracy(a) => met <==> best_accuracy >= a,
                Requirement::Streak(d) => met <==> longest_streak >= d,
                Requirement::Lessons(n) => met <==> lessons_completed >= n,
                Requirement::WpmAndAccuracy(w, a) => met <==> (best_wpm >= w && best_accuracy >= a),
                Requirement::TestsAndWpm(n, w) => met <==> (total_tests >= n && best_wpm >= w),
                Requirement::StreakAndLessons(d, n) => met <==> (longest_streak >= d
                    && lessons_completed >= n),
                Requirement::AccuracyAndTests(a, n) => met <==> (best_accuracy >= a && total_tests
                    >= n),
            }
        }),
{
}

/// A combined requirement is met exactly when both of the single
/// requirements it combines are met.
pub proof fn combined_requirements_are_conjunctions(
    w: u64,
    a: u64,
    n: i64,
    d: i64,
    l: i64,
    total_tests: i64,
    best_wpm: u64,
    best_accuracy: u64,
    longest_streak: i64,
    lessons_completed: i64,
)
    ensures
        requirement_met(Requirement::WpmAndAccuracy(w, a), total_tests, best_wpm, best_accuracy, longest_streak, lessons_completed)
            == (requirement_met(Requirement::Wpm(w), total_tests, best_wpm, best_accuracy, longest_streak, lessons_completed)
            && requirement_met(Requirement::Accuracy(a), total_tests, best_wpm, best_accuracy, longest_streak, lessons_completed)),
        requirement_met(Requirement::TestsAndWpm(n, w), total_tests, best_wpm, best_accuracy, longest_streak, lessons_completed)
            == (requirement_met(Requirement::Tests(n), total_tests, best_wpm, best_accuracy, longest_streak, lessons_completed)
            && requirement_met(Requirement::Wpm(w), total_tests, best_wpm, best_accuracy, longest_streak, lessons_completed)),
        requirement_met(Requirement::StreakAndLessons(d, l), total_tests, best_wpm, best_accuracy, longest_streak, lessons_completed)
            == (requirement_met(Requirement::Streak(d), total_tests, best_wpm, best_accuracy, longest_streak, lessons_completed)
            && requirement_met(Requirement::Lessons(l), total_tests, best_wpm, best_accuracy, longest_streak, lessons_completed)),
        requirement_met(Requirement::AccuracyAndTests(a, n), total_tests, best_wpm, best_accuracy, longest_streak, lessons_completed)
            == (requirement_met(Requirement::Accuracy(a), total_tests, best_wpm, best_accuracy, longest_streak, lessons_completed)
            && requirement_met(Requirement::Tests(n), total_tests, best_wpm, best_accuracy, longest_streak, lessons_completed)),
{
}

/// Achievements only accumulate: raising any of the totals keeps every
/// requirement that already held.
pub proof fn requirements_are_monotone(
    req: Requirement,
    total_tests: i64,
    best_wpm: u64,
    best_accuracy: u64,
    longest_streak: i64,
    lessons_completed: i64,
    more_tests: i64,
    more_wpm: u64,
    more_accuracy: u64,
    more_streak: i64,
    more_lessons: i64,
)
    requires
        total_tests <= more_tests,
        best_wpm <= more_wpm,
        best_accuracy <= more_accuracy,
        longest_streak <= more_streak,
        lessons_completed <= more_lessons,
        requirement_met(req, total_tests, best_wpm, best_accuracy, longest_streak, lessons_completed),
    ensures
        requirement_met(req, more_tests, more_wpm, more_accuracy, more_streak, more_lessons),
{
}

/// Number of achievements in the catalog.
pub const ACHIEVEMENT_COUNT: usize = 52;

/// The achievement catalog, in display order: id, name, description and
/// what unlocks it.
pub open spec fn catalog_entry(i: int) -> (&'static str, &'static str, &'static str, Requirement) {
    if i == 0 {
        ("first_test", "First Steps", "Complete your first test", Requirement::Tests(1))
    } else if i == 1 {
        ("5_tests", "Warm Up", "Complete 5 tests", Requirement::Tests(5))
    } else if i == 2 {
        ("10_tests", "Getting Started", "Complete 10 tests", Requirement::Tests(10))
    } else if i == 3 {
        ("25_tests", "Regular", "Complete 25 tests", Requirement::Tests(25))
    } else if i == 4 {
        ("50_tests", "Dedicated", "Complete 50 tests", Requirement::Tests(50))
    } else if i == 5 {
        ("100_tests", "Centurion", "Complete 100 tests", Requirement::Tests(100))
    } else if i == 6 {
        ("250_tests", "Quarter Milestone", "Complete 250 tests", Requirement::Tests(250))
    } else if i == 7 {
        ("500_tests", "Half a Thousand", "Complete 500 tests", Requirement::Tests(500))
    } else if i == 8 {
        ("1000_tests", "Typing Veteran", "Complete 1,000 tests", Requirement::Tests(1000))
    } else if i == 9 {
        ("wpm_20", "Beginner", "Reach 20 WPM", Requirement::Wpm(20))
    } else if i == 10 {
        ("wpm_30", "Speed Runner", "Reach 30 WPM", Requirement::Wpm(30))
    } else if i == 11 {
        ("wpm_50", "Fast Fingers", "Reach 50 WPM", Requirement::Wpm(50))
    } else if i == 12 {
        ("wpm_60", "Quick", "Reach 60 WPM", Requirement::Wpm(60))
    } else if i == 13 {
        ("wpm_80", "Lightning", "Reach 80 WPM", Requirement::Wpm(80))
    } else if i == 14 {
        ("wpm_100", "Speed Demon", "Reach 100 WPM", Requirement::Wpm(100))
    } else if i == 15 {
        ("wpm_120", "Blur", "Reach 120 WPM", Requirement::Wpm(120))
    } else if i == 16 {
        ("wpm_150", "Mach Speed", "Reach 150 WPM", Requirement::Wpm(150))
    } else if i == 17 {
        ("wpm_200", "Impossible", "Reach 200 WPM", Requirement::Wpm(200))
    } else if i == 18 {
        ("acc_85", "Steady", "Reach 85% accuracy", Requirement::Accuracy(85))
    } else if i == 19 {
        ("acc_90", "Reliable", "Reach 90% accuracy", Requirement::Accuracy(90))
    } else if i == 20 {
        ("acc_95", "Sharpshooter", "Reach 95% accuracy", Requirement::Accuracy(95))
    } else if i == 21 {
        ("acc_97", "Surgical", "Reach 97% accuracy", Requirement::Accuracy(97))
    } else if i == 22 {
        ("acc_99", "Perfect Precision", "Reach 99% accuracy", Requirement::Accuracy(99))
    } else if i == 23 {
        ("acc_100", "Flawless", "Reach 100% accuracy", Requirement::Accuracy(100))
    } else if i == 24 {
        ("streak_1", "First Day", "1-day streak", Requirement::Streak(1))
    } else if i == 25 {
        ("streak_3", "On a Roll", "3-day streak", Requirement::Streak(3))
    } else if i == 26 {
        ("streak_7", "Week Warrior", "7-day streak", Requirement::Streak(7))
    } else if i == 27 {
        ("streak_14", "Fortnight", "14-day streak", Requirement::Streak(14))
    } else if i == 28 {
        ("streak_30", "Unstoppable", "30-day streak", Requirement::Streak(30))
    } else if i == 29 {
        ("streak_60", "Two Months Strong", "60-day streak", Requirement::Streak(60))
    } else if i == 30 {
        ("streak_100", "Century Streak", "100-day streak", Requirement::Streak(100))
    } else if i == 31 {
        ("lessons_1", "First Lesson", "Complete your first lesson", Requirement::Lessons(1))
    } else if i == 32 {
        ("lessons_2", "Apprentice", "Complete 2 lessons", Requirement::Lessons(2))
    } else if i == 33 {
        ("lessons_5", "Student", "Complete 5 lessons", Requirement::Lessons(5))
    } else if i == 34 {
        ("lessons_20", "Scholar", "Complete 20 lessons", Requirement::Lessons(20))
    } else if i == 35 {
        ("lessons_50", "Mentor", "Complete 50 lessons", Requirement::Lessons(50))
    } else if i == 36 {
        ("lessons_100", "Master", "Complete 100 lessons", Requirement::Lessons(100))
    } else if i == 37 {
        ("lessons_200", "Grandmaster", "Complete 200 lessons", Requirement::Lessons(200))
    } else if i == 38 {
        ("balanced_50_95", "Balanced", "Reach 50 WPM with 95% accuracy", Requirement::WpmAndAccuracy(50, 95))
    } else if i == 39 {
        ("elite_80_95", "Elite", "Reach 80 WPM with 95% accuracy", Requirement::WpmAndAccuracy(80, 95))
    } else if i == 40 {
        ("marathon_100_80", "Marathon", "Complete 100 tests and reach 80 WPM", Requirement::TestsAndWpm(100, 80))
    } else if i == 41 {
        ("legend_500_100", "Legend", "Complete 500 tests and reach 100 WPM", Requirement::TestsAndWpm(500, 100))
    } else if i == 42 {
        ("consistent_7_20", "Consistent", "Hold a 7-day streak and complete 20 lessons", Requirement::StreakAndLessons(7, 20))
    } else if i == 43 {
        ("flawless_99_50", "Perfectionist", "Reach 99% accuracy across 50 tests", Requirement::AccuracyAndTests(99, 50))
    } else if i == 44 {
        ("wpm_40", "Cruising", "Reach 40 WPM", Requirement::Wpm(40))
    } else if i == 45 {
        ("wpm_70", "Swift", "Reach 70 WPM", Requirement::Wpm(70))
    } else if i == 46 {
        ("acc_92", "Precise", "Reach 92% accuracy", Requirement::Accuracy(92))
    } else if i == 47 {
        ("streak_21", "Three Weeks", "21-day streak", Requirement::Streak(21))
    } else if i == 48 {
        ("lessons_10", "Diligent", "Complete 10 lessons", Requirement::Lessons(10))
    } else if i == 49 {
        ("tests_75", "Persistent", "Complete 75 tests", Requirement::Tests(75))
    } else if i == 50 {
        ("wpm_90", "Turbo", "Reach 90 WPM", Requirement::Wpm(90))
    } else {
        ("acc_98", "Virtuoso", "Reach 98% accuracy", Requirement::Accuracy(98))
    }
}

fn catalog_entry_at(i: usize) -> (r: (&'static str, &'static str, &'static str, Requirement))
    requires
        i < ACHIEVEMENT_COUNT,
    ensures
        r == catalog_entry(i as int),
{
    match i {
        0 => ("first_test", "First Steps", "Complete your first test", Requirement::Tests(1)),
        1 => ("5_tests", "Warm Up", "Complete 5 tests", Requirement::Tests(5)),
        2 => ("10_tests", "Getting Started", "Complete 10 tests", Requirement::Tests(10)),
        3 => ("25_tests", "Regular", "Complete 25 tests", Requirement::Tests(25)),
        4 => ("50_tests", "Dedicated", "Complete 50 tests", Requirement::Tests(50)),
        5 => ("100_tests", "Centurion", "Complete 100 tests", Requirement::Tests(100)),
        6 => ("250_tests", "Quarter Milestone", "Complete 250 tests", Requirement::Tests(250)),
        7 => ("500_tests", "Half a Thousand", "Complete 500 tests", Requirement::Tests(500)),
        8 => ("1000_tests", "Typing Veteran", "Complete 1,000 tests", Requirement::Tests(1000)),
        9 => ("wpm_20", "Beginner", "Reach 20 WPM", Requirement::Wpm(20)),
        10 => ("wpm_30", "Speed Runner", "Reach 30 WPM", Requirement::Wpm(30)),
        11 => ("wpm_50", "Fast Fingers", "Reach 50 WPM", Requirement::Wpm(50)),
        12 => ("wpm_60", "Quick", "Reach 60 WPM", Requirement::Wpm(60)),
        13 => ("wpm_80", "Lightning", "Reach 80 WPM", Requirement::Wpm(80)),
        14 => ("wpm_100", "Speed Demon", "Reach 100 WPM", Requirement::Wpm(100)),
        15 => ("wpm_120", "Blur", "Reach 120 WPM", Requirement::Wpm(120)),
        16 => ("wpm_150", "Mach Speed", "Reach 150 WPM", Requirement::Wpm(150)),
        17 => ("wpm_200", "Impossible", "Reach 200 WPM", Requirement::Wpm(200)),
        18 => ("acc_85", "Steady", "Reach 85% accuracy", Requirement::Accuracy(85)),
        19 => ("acc_90", "Reliable", "Reach 90% accuracy", Requirement::Accuracy(90)),
        20 => ("acc_95", "Sharpshooter", "Reach 95% accuracy", Requirement::Accuracy(95)),
        21 => ("acc_97", "Surgical", "Reach 97% accuracy", Requirement::Accuracy(97)),
        22 => ("acc_99", "Perfect Precision", "Reach 99% accuracy", Requirement::Accuracy(99)),
        23 => ("acc_100", "Flawless", "Reach 100% accuracy", Requirement::Accuracy(100)),
        24 => ("streak_1", "First Day", "1-day streak", Requirement::Streak(1)),
        25 => ("streak_3", "On a Roll", "3-day streak", Requirement::Streak(3)),
        26 => ("streak_7", "Week Warrior", "7-day streak", Requirement::Streak(7)),
        27 => ("streak_14", "Fortnight", "14-day streak", Requirement::Streak(14)),
        28 => ("streak_30", "Unstoppable", "30-day streak", Requirement::Streak(30)),
        29 => ("streak_60", "Two Months Strong", "60-day streak", Requirement::Streak(60)),
        30 => ("streak_100", "Century Streak", "100-day streak", Requirement::Streak(100)),
        31 => ("lessons_1", "First Lesson", "Complete your first lesson", Requirement::Lessons(1)),
        32 => ("lessons_2", "Apprentice", "Complete 2 lessons", Requirement::Lessons(2)),
        33 => ("lessons_5", "Student", "Complete 5 lessons", Requirement::Lessons(5)),
        34 => ("lessons_20", "Scholar", "Complete 20 lessons", Requirement::Lessons(20)),
        35 => ("lessons_50", "Mentor", "Complete 50 lessons", Requirement::Lessons(50)),
        36 => ("lessons_100", "Master", "Complete 100 lessons", Requirement::Lessons(100)),
        37 => ("lessons_200", "Grandmaster", "Complete 200 lessons", Requirement::Lessons(200)),
        38 => ("balanced_50_95", "Balanced", "Reach 50 WPM with 95% accuracy", Requirement::WpmAndAccuracy(50, 95)),
        39 => ("elite_80_95", "Elite", "Reach 80 WPM with 95% accuracy", Requirement::WpmAndAccuracy(80, 95)),
        40 => ("marathon_100_80", "Marathon", "Complete 100 tests and reach 80 WPM", Requirement::TestsAndWpm(100, 80)),
        41 => ("legend_500_100", "Legend", "Complete 500 tests and reach 100 WPM", Requirement::TestsAndWpm(500, 100)),
        42 => ("consistent_7_20", "Consistent", "Hold a 7-day streak and complete 20 lessons", Requirement::StreakAndLessons(7, 20)),
        43 => ("flawless_99_50", "Perfectionist", "Reach 99% accuracy across 50 tests", Requirement::AccuracyAndTests(99, 50)),
        44 => ("wpm_40", "Cruising", "Reach 40 WPM", Requirement::Wpm(40)),
        45 => ("wpm_70", "Swift", "Reach 70 WPM", Requirement::Wpm(70)),
        46 => ("acc_92", "Precise", "Reach 92% accuracy", Requirement::Accuracy(92)),
        47 => ("streak_21", "Three Weeks", "21-day streak", Requirement::Streak(21)),
        48 => ("lessons_10", "Diligent", "Complete 10 lessons", Requirement::Lessons(10)),
        49 => ("tests_75", "Persistent", "Complete 75 tests", Requirement::Tests(75)),
        50 => ("wpm_90", "Turbo", "Reach 90 WPM", Requirement::Wpm(90)),
        _ => ("acc_98", "Virtuoso", "Reach 98% accuracy", Requirement::Accuracy(98)),
    }
}

/// Whether `a` is catalog entry `i`, unlocked exactly when its requirement
/// holds, and stamped with `now` exactly when unlocked.
pub open spec fn achievement_matches(
    a: Achievement,
    i: int,
    total_tests: i64,
    best_wpm: u64,
    best_accuracy: u64,
    longest_streak: i64,
    lessons_completed: i64,
    now: Seq<char>,
) -> bool {
    let e = catalog_entry(i);
    &&& a.id@ == e.0@
    &&& a.name@ == e.1@
    &&& a.description@ == e.2@
    &&& a.unlocked == requirement_met(
        e.3,
        total_tests,
        best_wpm,
        best_accuracy,
        longest_streak,
        lessons_completed,
    )
    &&& a.unlocked_at is Some == a.unlocked
    &&& a.unlocked_at matches Some(t) ==> t@ == now
}

/// Evaluates every achievement of the catalog, in catalog order.
///
/// Speed and accuracy are the whole parts of the best words per minute and
/// the best accuracy percentage: every threshold is a whole number, so
/// comparing whole parts decides exactly as comparing the fractional
/// values. Unlocked achievements carry `now` as their unlock time; the
/// current streak does not unlock anything.
pub fn check_achievements(
    total_tests: i64,
    best_wpm: u64,
    best_accuracy: u64,
    _current_streak: i64,
    longest_streak: i64,
    lessons_completed: i64,
    now: String,
) -> (r: Vec<Achievement>)
    ensures
        r@.len() == ACHIEVEMENT_COUNT,
        forall|i: int|
            0 <= i < ACHIEVEMENT_COUNT ==> achievement_matches(
                #[trigger] r@[i],
                i,
                total_tests,
                best_wpm,
                best_accuracy,
                longest_streak,
                lessons_completed,
                now@,
            ),
{
    let mut out: Vec<Achievement> = Vec::new();
    let mut i: usize = 0;
    while i < ACHIEVEMENT_COUNT
        invariant
            i <= ACHIEVEMENT_COUNT,
            out@.len() == i,
            forall|j: int|
                0 <= j < i ==> achievement_matches(
                    #[trigger] out@[j],
                    j,
                    total_tests,
                    best_wpm,
                    best_accuracy,
                    longest_streak,
                    lessons_completed,
                    now@,
                ),
        decreases ACHIEVEMENT_COUNT - i,
    {
        let (id, name, description, requirement) = catalog_entry_at(i);
        let unlocked = requirement.is_met(
            total_tests,
            best_wpm,
            best_accuracy,
            longest_streak,
            lessons_completed,
        );
        let unlocked_at = if unlocked {
            Some(now.clone())
        } else {
            None
        };
        out.push(
            Achievement {
                id: id.to_owned(),
                name: name.to_owned(),
                description: description.to_owned(),
                unlocked,
                unlocked_at,
            },
        );
        i = i + 1;
    }
    out
}

} // verus!

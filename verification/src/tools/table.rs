//! The first result set of a statement, and its rendering as a text table.

use vstd::prelude::*;
use crate::connection::opt_view;
use crate::text::{decimal, owned, push_char, push_decimal};

verus! {

/// Column names and rows of cells; a cell is `None` where the value is absent
/// or has no text form.
pub struct TableView {
    pub columns: Seq<Seq<char>>,
    pub rows: Seq<Seq<Option<Seq<char>>>>,
}

/// Every row has one cell per column.
pub open spec fn rectangular(t: TableView) -> bool {
    forall|i: int| 0 <= i < t.rows.len() ==> (#[trigger] t.rows[i]).len() == t.columns.len()
}

pub open spec fn names_view(names: Seq<String>) -> Seq<Seq<char>> {
    names.map_values(|s: String| s@)
}

pub open spec fn row_view(row: Seq<Option<String>>) -> Seq<Option<Seq<char>>> {
    row.map_values(|c: Option<String>| opt_view(c))
}

pub open spec fn rows_view(rows: Seq<Vec<Option<String>>>) -> Seq<Seq<Option<Seq<char>>>> {
    rows.map_values(|r: Vec<Option<String>>| row_view(r@))
}

/// A rectangular result set.
pub struct ResultTable {
    columns: Vec<String>,
    rows: Vec<Vec<Option<String>>>,
}

impl View for ResultTable {
    type V = TableView;

    closed spec fn view(&self) -> TableView {
        TableView { columns: names_view(self.columns@), rows: rows_view(self.rows@) }
    }
}

impl ResultTable {
    #[verifier::type_invariant]
    spec fn well_formed(&self) -> bool {
        rectangular(self@)
    }

    /// The table of the given columns and rows, unless some row has more or
    /// fewer cells than there are columns.
    pub fn new(columns: Vec<String>, rows: Vec<Vec<Option<String>>>) -> (r: Option<Self>)
        ensures
            r is Some <==> rectangular(
                TableView { columns: names_view(columns@), rows: rows_view(rows@) },
            ),
            r is Some ==> r->0@ == (TableView {
                columns: names_view(columns@),
                rows: rows_view(rows@),
            }),
    {
        let ghost t = TableView { columns: names_view(columns@), rows: rows_view(rows@) };
        let mut i: usize = 0;
        while i < rows.len()
            invariant
                i <= rows@.len(),
                t == (TableView { columns: names_view(columns@), rows: rows_view(rows@) }),
                forall|k: int| 0 <= k < i ==> (#[trigger] t.rows[k]).len() == t.columns.len(),
            decreases rows@.len() - i,
        {
            if rows[i].len() != columns.len() {
                assert(t.rows[i as int].len() != t.columns.len());
                return None;
            }
            i += 1;
        }
        Some(ResultTable { columns, rows })
    }

    /// The number of rows.
    pub fn row_count(&self) -> (r: usize)
        ensures
            r == self@.rows.len(),
    {
        self.rows.len()
    }

    /// The number of columns, which is also the number of cells of every row.
    pub fn column_count(&self) -> (r: usize)
        ensures
            r == self@.columns.len(),
            rectangular(self@),
    {
        proof {
            use_type_invariant(self);
        }
        self.columns.len()
    }

    /// Renders the table; see [`rendering`].
    pub fn render(&self, max_rows: Option<usize>) -> (r: String)
        ensures
            r@ == rendering(self@, max_rows),
            self@.rows.len() == 0 ==> r@ == "(no results)"@,
    {
        let total = self.rows.len();
        if total == 0 {
            return owned("(no results)");
        }
        if self.columns.len() == 0 {
            return owned("(no columns returned)");
        }
        let max = match max_rows {
            Some(m) => m,
            None => total,
        };
        let shown = if total < max {
            total
        } else {
            max
        };
        let mut md = String::new();
        push_header(&mut md, &self.columns);
        push_separator(&mut md, self.columns.len());
        let ghost head = md@;
        let mut i: usize = 0;
        while i < shown
            invariant
                i <= shown <= self.rows@.len(),
                md@ == head + lines(rows_view(self.rows@).take(i as int)),
            decreases shown - i,
        {
            push_row(&mut md, &self.rows[i]);
            proof {
                let all = rows_view(self.rows@);
                assert(all.take(i + 1).drop_last() =~= all.take(i as int));
                assert(all.take(i + 1).last() == row_view(self.rows@[i as int]@));
                assert(md@ =~= head + lines(all.take(i + 1)));
            }
            i += 1;
        }
        if total > max {
            md.append("\n_Showing ");
            push_decimal(&mut md, max as u64);
            md.append(" of ");
            push_decimal(&mut md, total as u64);
            md.append(" rows_\n");
        }
        assert(md@ =~= rendering(self@, max_rows));
        md
    }
}

/// One cell of a line: a space, the text, a space and a bar.
pub open spec fn cell(text: Seq<char>) -> Seq<char> {
    seq![' '] + text + seq![' ', '|']
}

/// The cells of a line, one after the other.
pub open spec fn cells(texts: Seq<Seq<char>>) -> Seq<char>
    decreases texts.len(),
{
    if texts.len() == 0 {
        Seq::empty()
    } else {
        cells(texts.drop_last()) + cell(texts.last())
    }
}

/// A line of the table: a leading bar, the cells, a line feed.
pub open spec fn line(texts: Seq<Seq<char>>) -> Seq<char> {
    seq!['|'] + cells(texts) + seq!['\n']
}

/// What a cell shows: its text, or `NULL` where it has none.
pub open spec fn cell_text(c: Option<Seq<char>>) -> Seq<char> {
    match c {
        Some(s) => s,
        None => "NULL"@,
    }
}

pub open spec fn cell_texts(row: Seq<Option<Seq<char>>>) -> Seq<Seq<char>> {
    row.map_values(|c: Option<Seq<char>>| cell_text(c))
}

/// The cells of the separator line under a header of `n` columns.
pub open spec fn dashes(n: nat) -> Seq<Seq<char>> {
    Seq::new(n, |i: int| "---"@)
}

/// The lines of the given rows, in order.
pub open spec fn lines(rows: Seq<Seq<Option<Seq<char>>>>) -> Seq<char>
    decreases rows.len(),
{
    if rows.len() == 0 {
        Seq::empty()
    } else {
        lines(rows.drop_last()) + line(cell_texts(rows.last()))
    }
}

/// How many rows are shown: all of them, or at most the limit.
pub open spec fn shown_rows(total: nat, max_rows: Option<usize>) -> nat {
    match max_rows {
        Some(m) => if total < m {
            total
        } else {
            m as nat
        },
        None => total,
    }
}

/// Whether the limit cuts rows off.
pub open spec fn truncated(total: nat, max_rows: Option<usize>) -> bool {
    max_rows is Some && total > max_rows->0
}

/// The note that follows a table from which rows were cut off.
pub open spec fn truncation_note(max: nat, total: nat) -> Seq<char> {
    "\n_Showing "@ + decimal(max) + " of "@ + decimal(total) + " rows_\n"@
}

/// The text of a result set. Without rows it is a fixed sentence, and so it is
/// with rows but without columns. Otherwise: the header line, the separator
/// line, one line for each row shown, and the truncation note where rows were
/// cut off.
pub open spec fn rendering(t: TableView, max_rows: Option<usize>) -> Seq<char> {
    if t.rows.len() == 0 {
        "(no results)"@
    } else if t.columns.len() == 0 {
        "(no columns returned)"@
    } else {
        line(t.columns) + line(dashes(t.columns.len())) + lines(
            t.rows.take(shown_rows(t.rows.len(), max_rows) as int),
        ) + if truncated(t.rows.len(), max_rows) {
            truncation_note(max_rows->0 as nat, t.rows.len())
        } else {
            Seq::empty()
        }
    }
}

/// A limit that cuts nothing off changes nothing.
pub proof fn lemma_limit_not_reached(t: TableView, limit: usize)
    requires
        t.rows.len() <= limit,
    ensures
        rendering(t, Some(limit)) == rendering(t, None),
{
    assert(t.rows.take(t.rows.len() as int) =~= t.rows);
}

/// A limit that cuts rows off shows the table of the first rows up to the
/// limit, followed by the note that gives the limit and the number of rows
/// there are.
pub proof fn lemma_truncation(t: TableView, limit: usize)
    requires
        0 < limit < t.rows.len(),
        t.columns.len() > 0,
    ensures
        rendering(t, Some(limit)) == rendering(
            TableView { columns: t.columns, rows: t.rows.take(limit as int) },
            None,
        ) + truncation_note(limit as nat, t.rows.len()),
{
    let first = t.rows.take(limit as int);
    assert(first.take(first.len() as int) =~= first);
    let head = line(t.columns) + line(dashes(t.columns.len())) + lines(first);
    assert(rendering(TableView { columns: t.columns, rows: first }, None) =~= head);
    assert(rendering(t, Some(limit)) =~= head + truncation_note(limit as nat, t.rows.len()));
}

/// The lines of some rows followed by the lines of more rows are the lines of
/// them all: each row is one line, in order.
pub proof fn lemma_lines_concat(
    first: Seq<Seq<Option<Seq<char>>>>,
    second: Seq<Seq<Option<Seq<char>>>>,
)
    ensures
        lines(first + second) == lines(first) + lines(second),
    decreases second.len(),
{
    if second.len() == 0 {
        assert(first + second =~= first);
        assert(lines(first) + lines(second) =~= lines(first));
    } else {
        lemma_lines_concat(first, second.drop_last());
        assert((first + second).drop_last() =~= first + second.drop_last());
        assert((first + second).last() == second.last());
        assert(lines(first + second) =~= lines(first) + lines(second));
    }
}

fn push_cell(out: &mut String, text: &str)
    ensures
        final(out)@ == old(out)@ + cell(text@),
{
    push_char(out, ' ');
    out.append(text);
    push_char(out, ' ');
    push_char(out, '|');
    assert(final(out)@ =~= old(out)@ + cell(text@));
}

fn push_header(out: &mut String, names: &Vec<String>)
    ensures
        final(out)@ == old(out)@ + line(names_view(names@)),
{
    let ghost before = out@;
    let ghost all = names_view(names@);
    push_char(out, '|');
    let mut i: usize = 0;
    while i < names.len()
        invariant
            i <= names@.len(),
            all == names_view(names@),
            out@ == before + seq!['|'] + cells(all.take(i as int)),
        decreases names@.len() - i,
    {
        push_cell(out, names[i].as_str());
        proof {
            assert(all.take(i + 1).drop_last() =~= all.take(i as int));
            assert(out@ =~= before + seq!['|'] + cells(all.take(i + 1)));
        }
        i += 1;
    }
    push_char(out, '\n');
    assert(all.take(names@.len() as int) =~= all);
    assert(out@ =~= before + line(all));
}

fn push_separator(out: &mut String, n: usize)
    ensures
        final(out)@ == old(out)@ + line(dashes(n as nat)),
{
    let ghost before = out@;
    let ghost all = dashes(n as nat);
    push_char(out, '|');
    let mut i: usize = 0;
    while i < n
        invariant
            i <= n,
            all == dashes(n as nat),
            out@ == before + seq!['|'] + cells(all.take(i as int)),
        decreases n - i,
    {
        push_cell(out, "---");
        proof {
            assert(all.take(i + 1).drop_last() =~= all.take(i as int));
            assert(out@ =~= before + seq!['|'] + cells(all.take(i + 1)));
        }
        i += 1;
    }
    push_char(out, '\n');
    assert(all.take(n as int) =~= all);
    assert(out@ =~= before + line(all));
}

fn push_row(out: &mut String, row: &Vec<Option<String>>)
    ensures
        final(out)@ == old(out)@ + line(cell_texts(row_view(row@))),
{
    let ghost before = out@;
    let ghost all = cell_texts(row_view(row@));
    push_char(out, '|');
    let mut i: usize = 0;
    while i < row.len()
        invariant
            i <= row@.len(),
            all == cell_texts(row_view(row@)),
            out@ == before + seq!['|'] + cells(all.take(i as int)),
        decreases row@.len() - i,
    {
        match &row[i] {
            Some(s) => push_cell(out, s.as_str()),
            None => push_cell(out, "NULL"),
        }
        proof {
            assert(all.take(i + 1).drop_last() =~= all.take(i as int));
            assert(out@ =~= before + seq!['|'] + cells(all.take(i + 1)));
        }
        i += 1;
    }
    push_char(out, '\n');
    assert(all.take(row@.len() as int) =~= all);
    assert(out@ =~= before + line(all));
}

} // verus!

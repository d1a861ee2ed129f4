//! A small table of penguins, written as lines of comma-separated fields
//! under a header line.

use vstd::prelude::*;
use crate::text::{pieces, split, trim, trimmed};

verus! {

/// The character that stands between the fields of a line.
pub const SEPARATOR: char = ',';

/// One row of the table: the penguin's name and its length as written.
#[derive(Debug)]
pub struct PenguinRow {
    pub name: String,
    pub length: String,
}

/// What was read of a table: the rows from the top down to the first line
/// that should hold a row and has no length, and whether there was no such
/// line.
#[derive(Debug)]
pub struct PenguinTable {
    pub rows: Vec<PenguinRow>,
    pub complete: bool,
}

/// The lines of a text, as the standard library's `str::lines` cuts them.
pub uninterp spec fn lines_of(text: Seq<char>) -> Seq<Seq<char>>;

/// Calls `str::lines` and gathers the lines. The contract gives them the
/// name [`lines_of`].
#[verifier::external_body]
fn lines(text: &str) -> (out: Vec<&str>)
    ensures
        out@.len() == lines_of(text@).len(),
        forall|i: int| 0 <= i < out@.len() ==> (#[trigger] out@[i])@ == lines_of(text@)[i],
{
    text.lines().collect()
}

/// The fields of a line: its pieces between commas.
pub open spec fn fields_of(line: Seq<char>) -> Seq<Seq<char>> {
    pieces(line, SEPARATOR)
}

/// A line holds a row unless it is the first line, the header, or blank.
pub open spec fn holds_row(index: int, line: Seq<char>) -> bool {
    index != 0 && trimmed(line).len() != 0
}

/// A line should hold a row and has a name only.
pub open spec fn lacks_length(index: int, line: Seq<char>) -> bool {
    holds_row(index, line) && fields_of(line).len() < 2
}

/// The place of the first line, from `from` on, that lacks a length; the
/// number of lines where none does.
pub open spec fn first_bad_line(lines: Seq<Seq<char>>, from: int) -> int
    decreases lines.len() - from,
{
    if from < 0 || from >= lines.len() {
        lines.len() as int
    } else if lacks_length(from, lines[from]) {
        from
    } else {
        first_bad_line(lines, from + 1)
    }
}

/// Every line that holds a row has a name and a length.
pub open spec fn is_table(lines: Seq<Seq<char>>) -> bool {
    first_bad_line(lines, 0) == lines.len()
}

/// The first bad line is bad, no line from `from` up to it is, and where
/// it is the number of lines, no line from `from` on is bad.
pub proof fn lemma_first_bad_line(lines: Seq<Seq<char>>, from: int)
    requires
        0 <= from <= lines.len(),
    ensures
        from <= first_bad_line(lines, from) <= lines.len(),
        forall|j: int|
            from <= j < first_bad_line(lines, from) ==> !lacks_length(j, #[trigger] lines[j]),
        first_bad_line(lines, from) < lines.len() ==> lacks_length(
            first_bad_line(lines, from),
            lines[first_bad_line(lines, from)],
        ),
    decreases lines.len() - from,
{
    if from < lines.len() && !lacks_length(from, lines[from]) {
        lemma_first_bad_line(lines, from + 1);
    }
}

/// The name and the length of a line's row: its first two fields, trimmed.
pub open spec fn row_of(line: Seq<char>) -> (Seq<char>, Seq<char>) {
    (trimmed(fields_of(line)[0]), trimmed(fields_of(line)[1]))
}

/// The rows of the lines that hold one, from the top down.
pub open spec fn rows_of(lines: Seq<Seq<char>>) -> Seq<(Seq<char>, Seq<char>)>
    decreases lines.len(),
{
    if lines.len() == 0 {
        Seq::empty()
    } else if holds_row(lines.len() - 1, lines.last()) {
        rows_of(lines.drop_last()).push(row_of(lines.last()))
    } else {
        rows_of(lines.drop_last())
    }
}

/// The lines that were read: those before the first bad line.
pub open spec fn lines_read(lines: Seq<Seq<char>>) -> Seq<Seq<char>> {
    lines.take(first_bad_line(lines, 0))
}

/// Whether the line at `index` holds a row, given the line without the
/// white space at its ends.
pub fn is_row_line(index: usize, trimmed_line: &str) -> (holds: bool)
    ensures
        holds == (index != 0 && trimmed_line@.len() != 0),
{
    !(index == 0 || trimmed_line.is_empty())
}

/// The row of a line that was cut into its fields: the first two fields,
/// trimmed. A line with fewer than two fields has no row.
pub fn row_from_fields(fields: &Vec<&str>) -> (row: Option<PenguinRow>)
    ensures
        fields@.len() < 2 ==> row.is_none(),
        fields@.len() >= 2 ==> (row matches Some(r) && r.name@ == trimmed(fields@[0]@)
            && r.length@ == trimmed(fields@[1]@)),
{
    if fields.len() < 2 {
        None
    } else {
        Some(
            PenguinRow {
                name: String::from_str(trim(fields[0])),
                length: String::from_str(trim(fields[1])),
            },
        )
    }
}

/// Reads the table: the rows of all lines but the header and the blank
/// ones, from the top down. Reading stops at the first line that should
/// hold a row and has no second field; the rows above it are handed out,
/// and the table is then not complete.
pub fn penguin_rows(data: &str) -> (table: PenguinTable)
    ensures
        table.complete == is_table(lines_of(data@)),
        table.rows@.len() == rows_of(lines_read(lines_of(data@))).len(),
        forall|k: int|
            0 <= k < table.rows@.len() ==> (#[trigger] table.rows@[k].name@, table.rows@[k].length@)
                == rows_of(lines_read(lines_of(data@)))[k],
{
    let records = lines(data);
    let ghost all = lines_of(data@);
    let mut rows: Vec<PenguinRow> = Vec::new();
    let mut i: usize = 0;
    proof {
        assert(all.take(0) =~= Seq::<Seq<char>>::empty());
    }
    while i < records.len()
        invariant
            0 <= i <= records@.len(),
            all == lines_of(data@),
            records@.len() == all.len(),
            forall|j: int| 0 <= j < records@.len() ==> (#[trigger] records@[j])@ == all[j],
            first_bad_line(all, 0) == first_bad_line(all, i as int),
            rows@.len() == rows_of(all.take(i as int)).len(),
            forall|k: int|
                0 <= k < rows@.len() ==> (#[trigger] rows@[k].name@, rows@[k].length@) == rows_of(
                    all.take(i as int),
                )[k],
        decreases records@.len() - i,
    {
        let line: &str = records[i];
        proof {
            assert(all.take(i + 1).drop_last() =~= all.take(i as int));
            assert(all.take(i + 1).last() == all[i as int]);
            assert(line@ == all[i as int]);
        }
        if is_row_line(i, trim(line)) {
            let fields = split(line, SEPARATOR);
            match row_from_fields(&fields) {
                Some(row) => {
                    rows.push(row);
                },
                None => {
                    assert(lacks_length(i as int, all[i as int]));
                    return PenguinTable { rows, complete: false };
                },
            }
        }
        assert(!lacks_length(i as int, all[i as int]));
        i += 1;
    }
    PenguinTable { rows, complete: true }
}

} // verus!

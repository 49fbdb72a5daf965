//! Rows turned into text.
//!
//! A layout says which rows there are; the host works out the figures of
//! each row and renders them. Here the cells of each row are put together
//! from the names in the results and those figures, the text table is printed
//! from them, and the CSV lines are joined.

use vstd::prelude::*;
use vstd::string::StringExecFns;
use crate::report::{
    header_of, row_in_range, BenchError, Column, Format, Out, OutView, Row, TestSuite, Text, CSV,
};

verus! {

#[verifier::external_type_specification]
#[verifier::external_body]
pub struct ExIoError(std::io::Error);

/// The figures of one row, rendered by the host. A row shows those that its
/// columns ask for.
#[derive(Clone, Debug, PartialEq, Eq)]
pub struct Figures {
    pub ratio: String,
    pub median: String,
    pub rsd: String,
    pub percentage: String,
}

/// The characters of each string.
pub open spec fn strings_of(cells: Seq<String>) -> Seq<Seq<char>> {
    cells.map_values(|cell: String| cell@)
}

/// The characters of each cell of each line.
pub open spec fn table_of(mat: Seq<Vec<String>>) -> Seq<Seq<Seq<char>>> {
    mat.map_values(|line: Vec<String>| strings_of(line@))
}

/// The title of a column.
pub open spec fn column_name(column: Column) -> Seq<char> {
    match column {
        Column::Test => "Test"@,
        Column::Implementation => "Implementation"@,
        Column::Ratio => "Ratio"@,
        Column::Median => "Median"@,
        Column::RSD => "RSD"@,
        Column::Function => "Function"@,
        Column::Percentage => "Percentage"@,
    }
}

/// The titles of a format's columns.
pub open spec fn header_names(format: Format, breakdown: bool) -> Seq<Seq<char>> {
    header_of(format, breakdown).map_values(|column: Column| column_name(column))
}

/// The cells of a row of the text table. A summary row has blank cells below
/// the columns of the breakdown, a function's row below all columns but those.
pub open spec fn text_cells(
    suites: Seq<TestSuite>,
    breakdown: bool,
    row: Row,
    figures: Figures,
) -> Seq<Seq<char>> {
    match row {
        Row::Result { test, implementation, .. } => {
            let cells = seq![
                suites[test as int].name@,
                suites[test as int].implementations@[implementation as int].name@,
                figures.ratio@,
                figures.median@,
                figures.rsd@,
            ];
            if breakdown {
                cells + seq![Seq::<char>::empty(), Seq::<char>::empty()]
            } else {
                cells
            }
        },
        Row::Body { test, implementation, body, .. } => seq![
            Seq::<char>::empty(),
            Seq::<char>::empty(),
            Seq::<char>::empty(),
            Seq::<char>::empty(),
            Seq::<char>::empty(),
            suites[test as int].implementations@[implementation as int].result.bodies_summary@[body as int].name@,
            figures.percentage@,
        ],
    }
}

/// The cells of a CSV line.
pub open spec fn csv_cells(suites: Seq<TestSuite>, row: Row, figures: Figures) -> Seq<Seq<char>> {
    match row {
        Row::Result { test, implementation, .. } => seq![
            suites[test as int].name@,
            suites[test as int].implementations@[implementation as int].name@,
            figures.ratio@,
            figures.median@,
            figures.rsd@,
        ],
        Row::Body { test, implementation, body, .. } => seq![
            suites[test as int].name@,
            suites[test as int].implementations@[implementation as int].result.bodies_summary@[body as int].name@,
            suites[test as int].implementations@[implementation as int].name@,
            figures.median@,
            figures.rsd@,
            figures.percentage@,
        ],
    }
}

/// The cells of a row, for the text table or else for CSV.
pub open spec fn cells_of(
    text: bool,
    suites: Seq<TestSuite>,
    breakdown: bool,
    row: Row,
    figures: Figures,
) -> Seq<Seq<char>> {
    if text {
        text_cells(suites, breakdown, row, figures)
    } else {
        csv_cells(suites, row, figures)
    }
}

/// The cells of all rows of a layout, each row with the figures at its place.
pub open spec fn table(
    text: bool,
    results: OutView,
    breakdown: bool,
    figures: Seq<Figures>,
) -> Seq<Seq<Seq<char>>> {
    let format = if text {
        Format::Text
    } else {
        Format::CSV
    };
    Seq::new(
        results.layout(format, breakdown).len(),
        |i: int|
            cells_of(text, results.suites, breakdown, results.layout(format, breakdown)[i], figures[i]),
    )
}

/// The cells joined by tabs.
pub open spec fn joined(cells: Seq<Seq<char>>) -> Seq<char>
    decreases cells.len(),
{
    if cells.len() == 0 {
        Seq::<char>::empty()
    } else if cells.len() == 1 {
        cells[0]
    } else {
        joined(cells.drop_last()) + "\t"@ + cells.last()
    }
}

/// A line of cells: joined by tabs and ended by a line feed.
pub open spec fn line(cells: Seq<Seq<char>>) -> Seq<char> {
    joined(cells) + "\n"@
}

/// The first `count` lines of a table, one after the other.
pub open spec fn lines(table: Seq<Seq<Seq<char>>>, count: nat) -> Seq<char>
    decreases count,
{
    if count == 0 {
        Seq::<char>::empty()
    } else {
        lines(table, (count - 1) as nat) + line(table[count - 1])
    }
}

/// What `printtable::write` writes for a header and the lines of a table.
pub uninterp spec fn printed_table(header: Seq<Seq<char>>, mat: Seq<Seq<Seq<char>>>) -> Seq<u8>;

/// `printtable::write` into a buffer in memory. Claimed of it: it succeeds,
/// since it fails only where a write to its writer fails and a write that
/// appends to a vector does not; and what it has written depends on the header
/// and the cells alone.
#[verifier::external_body]
fn print_table(header: &Vec<String>, mat: &Vec<Vec<String>>) -> (r: Result<
    Vec<u8>,
    std::io::Error,
>)
    ensures
        r is Ok,
        r->Ok_0@ == printed_table(strings_of(header@), table_of(mat@)),
{
    let mut buffer: Vec<u8> = Vec::new();
    match printtable::write(&mut buffer, header, mat) {
        Ok(()) => Ok(buffer),
        Err(error) => Err(error),
    }
}

impl Column {
    /// The title of the column.
    pub fn name(&self) -> (r: String)
        ensures
            r@ == column_name(*self),
    {
        match self {
            Column::Test => "Test".to_owned(),
            Column::Implementation => "Implementation".to_owned(),
            Column::Ratio => "Ratio".to_owned(),
            Column::Median => "Median".to_owned(),
            Column::RSD => "RSD".to_owned(),
            Column::Function => "Function".to_owned(),
            Column::Percentage => "Percentage".to_owned(),
        }
    }
}

/// The titles of the columns of a header.
fn names_of_header(header: &Vec<Column>) -> (names: Vec<String>)
    ensures
        strings_of(names@) == header@.map_values(|column: Column| column_name(column)),
{
    let mut names: Vec<String> = Vec::new();
    let mut k: usize = 0;
    while k < header.len()
        invariant
            k <= header@.len(),
            names@.len() == k,
            forall|i: int| 0 <= i < k ==> (#[trigger] names@[i])@ == column_name(header@[i]),
        decreases header@.len() - k,
    {
        names.push(header[k].name());
        k = k + 1;
    }
    assert(strings_of(names@) =~= header@.map_values(|column: Column| column_name(column)));
    names
}

/// The cells of one row.
fn row_cells(text: bool, suites: &Vec<TestSuite>, breakdown: bool, row: Row, figures: &Figures) -> (cells:
    Vec<String>)
    requires
        row_in_range(suites@, row),
    ensures
        strings_of(cells@) == cells_of(text, suites@, breakdown, row, *figures),
{
    let mut cells: Vec<String> = Vec::new();
    match row {
        Row::Result { test, implementation, .. } => {
            cells.push(suites[test].name.clone());
            cells.push(suites[test].implementations[implementation].name.clone());
            cells.push(figures.ratio.clone());
            cells.push(figures.median.clone());
            cells.push(figures.rsd.clone());
            if text && breakdown {
                cells.push(String::new());
                cells.push(String::new());
            }
        },
        Row::Body { test, implementation, body, .. } => {
            let name = suites[test].implementations[implementation].result.bodies_summary[body].name.clone();
            if text {
                cells.push(String::new());
                cells.push(String::new());
                cells.push(String::new());
                cells.push(String::new());
                cells.push(String::new());
                cells.push(name);
                cells.push(figures.percentage.clone());
            } else {
                cells.push(suites[test].name.clone());
                cells.push(name);
                cells.push(suites[test].implementations[implementation].name.clone());
                cells.push(figures.median.clone());
                cells.push(figures.rsd.clone());
                cells.push(figures.percentage.clone());
            }
        },
    }
    assert(strings_of(cells@) =~= cells_of(text, suites@, breakdown, row, *figures));
    cells
}

/// The cells of all rows.
fn table_cells(text: bool, results: &Out, breakdown: bool, figures: &Vec<Figures>) -> (mat: Vec<
    Vec<String>,
>)
    requires
        results@.wf(),
        figures@.len() == results@.layout(
            if text {
                Format::Text
            } else {
                Format::CSV
            },
            breakdown,
        ).len(),
    ensures
        table_of(mat@) == table(text, results@, breakdown, figures@),
{
    let format = if text {
        Format::Text
    } else {
        Format::CSV
    };
    let layout = results.out(format, breakdown);
    let suites = results.test_suites();
    let mut mat: Vec<Vec<String>> = Vec::new();
    let mut k: usize = 0;
    while k < layout.rows.len()
        invariant
            k <= layout.rows@.len(),
            layout.rows@ == results@.layout(format, breakdown),
            figures@.len() == layout.rows@.len(),
            suites@ == results@.suites,
            forall|i: int|
                0 <= i < layout.rows@.len() ==> row_in_range(suites@, #[trigger] layout.rows@[i]),
            mat@.len() == k,
            forall|i: int|
                0 <= i < k ==> strings_of((#[trigger] mat@[i])@) == cells_of(
                    text,
                    suites@,
                    breakdown,
                    layout.rows@[i],
                    figures@[i],
                ),
        decreases layout.rows@.len() - k,
    {
        mat.push(row_cells(text, suites, breakdown, layout.rows[k], &figures[k]));
        k = k + 1;
    }
    assert(table_of(mat@) =~= table(text, results@, breakdown, figures@));
    mat
}

/// Appends the line of the given cells.
fn push_line(out: &mut String, cells: &Vec<String>)
    ensures
        final(out)@ == old(out)@ + line(strings_of(cells@)),
{
    let mut k: usize = 0;
    while k < cells.len()
        invariant
            k <= cells@.len(),
            out@ == old(out)@ + joined(strings_of(cells@).take(k as int)),
        decreases cells@.len() - k,
    {
        let ghost before = strings_of(cells@).take(k as int);
        let ghost after = strings_of(cells@).take(k + 1);
        assert(after.drop_last() =~= before);
        assert(after.last() == cells@[k as int]@);
        if k > 0 {
            out.append("\t");
        }
        out.append(cells[k].as_str());
        assert(out@ =~= old(out)@ + joined(after));
        k = k + 1;
    }
    assert(strings_of(cells@).take(cells@.len() as int) =~= strings_of(cells@));
    out.append("\n");
    assert(out@ =~= old(out)@ + line(strings_of(cells@)));
}

impl Text {
    /// What became of printing the table: the bytes, or that the output could
    /// not be written.
    pub fn written(printed: Result<Vec<u8>, std::io::Error>) -> (r: Result<Vec<u8>, BenchError>)
        ensures
            printed is Ok ==> r == Ok::<Vec<u8>, BenchError>(printed->Ok_0),
            printed is Err ==> r == Err::<Vec<u8>, BenchError>(BenchError::Io),
    {
        match printed {
            Ok(bytes) => Ok(bytes),
            Err(_) => Err(BenchError::Io),
        }
    }

    /// The results as a table for a terminal: the header of the text format
    /// over the cells of its rows, printed with aligned columns.
    pub fn render(&self, results: &Out, breakdown: bool, figures: &Vec<Figures>) -> (r: Result<
        Vec<u8>,
        BenchError,
    >)
        requires
            results@.wf(),
            figures@.len() == results@.layout(Format::Text, breakdown).len(),
        ensures
            r is Ok,
            r->Ok_0@ == printed_table(
                header_names(Format::Text, breakdown),
                table(true, results@, breakdown, figures@),
            ),
    {
        let layout = results.out(Format::Text, breakdown);
        let header = names_of_header(&layout.header);
        let mat = table_cells(true, results, breakdown, figures);
        Text::written(print_table(&header, &mat))
    }
}

impl CSV {
    /// The results as lines, one by one: the titles of the columns, then one
    /// line for each row.
    pub fn lines(&self, results: &Out, breakdown: bool, figures: &Vec<Figures>) -> (r: Vec<String>)
        requires
            results@.wf(),
            figures@.len() == results@.layout(Format::CSV, breakdown).len(),
        ensures
            r@.len() == table(false, results@, breakdown, figures@).len() + 1,
            r@[0]@ == line(header_names(Format::CSV, breakdown)),
            forall|k: int|
                0 <= k < table(false, results@, breakdown, figures@).len() ==> (#[trigger] r@[k
                    + 1])@ == line(table(false, results@, breakdown, figures@)[k]),
    {
        let layout = results.out(Format::CSV, breakdown);
        let header = names_of_header(&layout.header);
        let mat = table_cells(false, results, breakdown, figures);
        let mut out: Vec<String> = Vec::new();
        let mut first = String::new();
        push_line(&mut first, &header);
        assert(first@ =~= line(header_names(Format::CSV, breakdown)));
        out.push(first);
        let mut k: usize = 0;
        while k < mat.len()
            invariant
                k <= mat@.len(),
                out@.len() == k + 1,
                out@[0]@ == line(header_names(Format::CSV, breakdown)),
                forall|i: int| 0 <= i < k ==> (#[trigger] out@[i + 1])@ == line(table_of(mat@)[i]),
            decreases mat@.len() - k,
        {
            let mut next = String::new();
            push_line(&mut next, &mat[k]);
            assert(next@ =~= line(table_of(mat@)[k as int]));
            out.push(next);
            k = k + 1;
        }
        out
    }

    /// The results as tab-separated lines: the titles of the columns, then
    /// one line for each row.
    pub fn render(&self, results: &Out, breakdown: bool, figures: &Vec<Figures>) -> (r: String)
        requires
            results@.wf(),
            figures@.len() == results@.layout(Format::CSV, breakdown).len(),
        ensures
            r@ == line(header_names(Format::CSV, breakdown)) + lines(
                table(false, results@, breakdown, figures@),
                table(false, results@, breakdown, figures@).len(),
            ),
    {
        let layout = results.out(Format::CSV, breakdown);
        let header = names_of_header(&layout.header);
        let mat = table_cells(false, results, breakdown, figures);
        let mut out = String::new();
        push_line(&mut out, &header);
        let ghost head = out@;
        let mut k: usize = 0;
        while k < mat.len()
            invariant
                k <= mat@.len(),
                out@ == head + lines(table_of(mat@), k as nat),
            decreases mat@.len() - k,
        {
            push_line(&mut out, &mat[k]);
            k = k + 1;
            assert(out@ =~= head + lines(table_of(mat@), k as nat));
        }
        out
    }
}

} // verus!

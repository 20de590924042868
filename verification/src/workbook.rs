//! The workbook parser: reads the roster sheet out of the bytes of a
//! spreadsheet file and hands its rows on as plain cells.

use calamine::{Data, HeaderRow, Range, Reader, Xlsx, XlsxError};
use vstd::prelude::*;
use crate::cell::{row_view, rows_view, Cell, CellView};

verus! {

/// A cell value of calamine.
#[verifier::external_type_specification]
#[verifier::external_body]
pub struct ExData(Data);

/// A rectangle of cells of calamine.
#[verifier::external_type_specification]
#[verifier::external_body]
#[verifier::reject_recursive_types(T)]
pub struct ExRange<T>(Range<T>);

/// The error of calamine's reader of the xlsx format.
#[verifier::external_type_specification]
#[verifier::external_body]
pub struct ExXlsxError(XlsxError);

/// The workbook could not be read: the bytes are no well-formed workbook,
/// or the workbook has no sheet of the expected name.
#[derive(Clone, Copy, Debug, PartialEq, Eq, Structural)]
pub struct ParseError;

/// What the cells of a range hold, row by row, from its first row and
/// column on: the text of a string cell, the bits of the number of a float
/// cell, `Empty` for an empty cell and `Other` for a cell of any other
/// kind.
pub uninterp spec fn range_cells(range: Range<Data>) -> Seq<Seq<CellView>>;

/// What calamine reads from the bytes of an xlsx workbook as the sheet of
/// the given name, the first row that is not empty coming first; `None`
/// where it reports an error.
pub uninterp spec fn workbook_sheet(bytes: Seq<u8>, sheet: Seq<char>) -> Option<Seq<Seq<CellView>>>;

/// Opens the bytes as an xlsx workbook with `calamine::Xlsx::new` and reads
/// the sheet with `Reader::worksheet_range`, the header row set to the
/// first row that is not empty. Trusted: the outcome is what calamine
/// computes from the bytes and the name alone.
#[verifier::external_body]
fn open_sheet(bytes: &[u8], sheet: &str) -> (opened: Result<Range<Data>, XlsxError>)
    ensures
        opened is Ok <==> workbook_sheet(bytes@, sheet@) is Some,
        opened matches Ok(range) ==> workbook_sheet(bytes@, sheet@) == Some(range_cells(range)),
{
    let mut book: Xlsx<std::io::Cursor<&[u8]>> = Xlsx::new(std::io::Cursor::new(bytes))?;
    book.with_header_row(HeaderRow::FirstNonEmptyRow).worksheet_range(sheet)
}

/// `calamine::Range::height`: the number of rows of the range.
#[verifier::external_body]
fn range_height(range: &Range<Data>) -> (height: usize)
    ensures
        height == range_cells(*range).len(),
{
    range.height()
}

/// `calamine::Range::width`: the number of cells in each row of the range.
#[verifier::external_body]
fn range_width(range: &Range<Data>) -> (width: usize)
    ensures
        forall|row: int|
            0 <= row < range_cells(*range).len() ==> (#[trigger] range_cells(*range)[row]).len()
                == width,
{
    range.width()
}

/// `calamine::Range::get`: the cell at a position inside the range.
#[verifier::external_body]
fn range_cell(range: &Range<Data>, row: usize, column: usize) -> (cell: Cell)
    requires
        row < range_cells(*range).len(),
        column < range_cells(*range)[row as int].len(),
    ensures
        cell@ == range_cells(*range)[row as int][column as int],
{
    match range.get((row, column)) {
        Some(Data::String(text)) => Cell::Text(text.clone()),
        Some(Data::Float(number)) => Cell::Number(number.to_bits()),
        Some(Data::Empty) => Cell::Empty,
        _ => Cell::Other,
    }
}

/// The name of the sheet that holds the roster.
pub open spec fn sheet_name() -> Seq<char> {
    "UniversalReport"@
}

/// The rows of a sheet without its header, which is the first row.
pub open spec fn without_header(sheet: Seq<Seq<CellView>>) -> Seq<Seq<CellView>> {
    if sheet.len() == 0 {
        sheet
    } else {
        sheet.skip(1)
    }
}

/// The cells of the rows of `range` from row `first` on.
fn read_rows(range: &Range<Data>, first: usize) -> (rows: Vec<Vec<Cell>>)
    ensures
        first <= range_cells(*range).len() ==> rows_view(rows@) == range_cells(*range).skip(
            first as int,
        ),
        first > range_cells(*range).len() ==> rows@.len() == 0,
{
    let height = range_height(range);
    let width = range_width(range);
    let mut rows: Vec<Vec<Cell>> = Vec::new();
    let mut r: usize = first;
    while r < height
        invariant
            first <= r <= height || (height < first && r == first),
            height == range_cells(*range).len(),
            forall|row: int|
                0 <= row < height ==> (#[trigger] range_cells(*range)[row]).len() == width,
            rows.len() == r - first,
            forall|k: int|
                0 <= k < rows.len() ==> row_view((#[trigger] rows[k])@) == range_cells(*range)[first
                    + k],
        decreases height - r,
    {
        let mut row: Vec<Cell> = Vec::new();
        let mut c: usize = 0;
        while c < width
            invariant
                c <= width,
                r < height,
                height == range_cells(*range).len(),
                range_cells(*range)[r as int].len() == width,
                row.len() == c,
                forall|k: int|
                    0 <= k < c ==> (#[trigger] row[k])@ == range_cells(*range)[r as int][k],
            decreases width - c,
        {
            row.push(range_cell(range, r, c));
            c += 1;
        }
        assert(row_view(row@) =~= range_cells(*range)[r as int]);
        rows.push(row);
        r += 1;
    }
    proof {
        if first <= height {
            assert(rows_view(rows@) =~= range_cells(*range).skip(first as int));
        }
    }
    rows
}

/// Reads the data rows of the roster sheet from the bytes of a workbook:
/// every row below the header, which is the first row that is not empty.
/// Fails where the bytes are no well-formed workbook or the workbook has no
/// sheet `UniversalReport`.
pub fn parse_workbook(bytes: &[u8]) -> (parsed: Result<Vec<Vec<Cell>>, ParseError>)
    ensures
        match workbook_sheet(bytes@, sheet_name()) {
            Some(sheet) => parsed matches Ok(rows) && rows_view(rows@) == without_header(sheet),
            None => parsed is Err,
        },
{
    match open_sheet(bytes, "UniversalReport") {
        Ok(range) => {
            let rows = read_rows(&range, 1);
            proof {
                let sheet = range_cells(range);
                if sheet.len() == 0 {
                    assert(rows_view(rows@) =~= sheet);
                }
            }
            Ok(rows)
        },
        Err(_) => Err(ParseError),
    }
}

} // verus!

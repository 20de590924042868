//! The cells of a worksheet row, as the normalizer reads them.

use vstd::prelude::*;

verus! {

/// One cell of a worksheet.
#[derive(Clone, Debug, PartialEq, Eq)]
pub enum Cell {
    /// No content.
    Empty,
    /// Text.
    Text(String),
    /// A number, as the 64 bits of its IEEE 754 binary64 value.
    Number(u64),
    /// Anything else that a worksheet can hold: a truth value, a date
    /// serial, an error marker.
    Other,
}

/// What a cell holds, as a mathematical value.
pub enum CellView {
    Empty,
    Text(Seq<char>),
    Number(u64),
    Other,
}

impl View for Cell {
    type V = CellView;

    open spec fn view(&self) -> CellView {
        match self {
            Cell::Empty => CellView::Empty,
            Cell::Text(text) => CellView::Text(text@),
            Cell::Number(bits) => CellView::Number(*bits),
            Cell::Other => CellView::Other,
        }
    }
}

/// What the cells of a row hold, in order.
pub open spec fn row_view(row: Seq<Cell>) -> Seq<CellView> {
    Seq::new(row.len(), |i: int| row[i]@)
}

/// What the cells of a sheet hold, row by row.
pub open spec fn rows_view(rows: Seq<Vec<Cell>>) -> Seq<Seq<CellView>> {
    Seq::new(rows.len(), |i: int| row_view(rows[i]@))
}

} // verus!

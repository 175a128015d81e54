use vstd::prelude::*;

verus! {

/// One cell of the source sheet.
///
/// A floating-point value is held by its IEEE-754 bit pattern: the library
/// never computes with it, it only hands it on to the writer.
#[derive(Debug, Clone, PartialEq)]
pub enum Cell {
    Bool(bool),
    Empty,
    Int(i64),
    Float(u64),
    Text(String),
    /// A value of a kind that is never written (a date, a duration, an error).
    Other,
}

/// The typed value written into an output cell.
#[derive(Debug, Clone, PartialEq)]
pub enum CellWrite {
    Boolean(bool),
    /// An integer, written as a floating-point number.
    Integer(i64),
    /// A floating-point number, by its bit pattern.
    Float(u64),
    Text(String),
}

/// The mathematical value of a [`Cell`].
pub ghost enum CellView {
    Bool(bool),
    Empty,
    Int(i64),
    Float(u64),
    Text(Seq<char>),
    Other,
}

/// The mathematical value of a [`CellWrite`].
pub ghost enum WriteView {
    Boolean(bool),
    Integer(i64),
    Float(u64),
    Text(Seq<char>),
}

impl View for Cell {
    type V = CellView;

    open spec fn view(&self) -> CellView {
        match self {
            Cell::Bool(b) => CellView::Bool(*b),
            Cell::Empty => CellView::Empty,
            Cell::Int(i) => CellView::Int(*i),
            Cell::Float(f) => CellView::Float(*f),
            Cell::Text(s) => CellView::Text(s@),
            Cell::Other => CellView::Other,
        }
    }
}

impl View for CellWrite {
    type V = WriteView;

    open spec fn view(&self) -> WriteView {
        match self {
            CellWrite::Boolean(b) => WriteView::Boolean(*b),
            CellWrite::Integer(i) => WriteView::Integer(*i),
            CellWrite::Float(f) => WriteView::Float(*f),
            CellWrite::Text(s) => WriteView::Text(s@),
        }
    }
}

/// What a cell is written as: a boolean stays a boolean, an empty cell becomes
/// the empty string, a number stays a number, a string stays a string, and any
/// other kind of value is not written at all.
pub open spec fn written(c: CellView) -> Option<WriteView> {
    match c {
        CellView::Bool(b) => Some(WriteView::Boolean(b)),
        CellView::Empty => Some(WriteView::Text(Seq::empty())),
        CellView::Int(i) => Some(WriteView::Integer(i)),
        CellView::Float(f) => Some(WriteView::Float(f)),
        CellView::Text(s) => Some(WriteView::Text(s)),
        CellView::Other => None,
    }
}

pub open spec fn option_view(w: Option<CellWrite>) -> Option<WriteView> {
    match w {
        Some(x) => Some(x@),
        None => None,
    }
}

/// The values written for a row, column by column.
pub open spec fn written_row(row: Seq<CellView>) -> Seq<Option<WriteView>> {
    row.map_values(|c: CellView| written(c))
}

pub open spec fn row_view(row: Seq<Cell>) -> Seq<CellView> {
    row.map_values(|c: Cell| c@)
}

pub open spec fn writes_view(ws: Seq<Option<CellWrite>>) -> Seq<Option<WriteView>> {
    ws.map_values(|w: Option<CellWrite>| option_view(w))
}

/// Chooses the typed write for one cell.
pub fn cell_write(c: &Cell) -> (r: Option<CellWrite>)
    ensures
        option_view(r) == written(c@),
{
    match c {
        Cell::Bool(b) => Some(CellWrite::Boolean(*b)),
        Cell::Empty => Some(CellWrite::Text(String::new())),
        Cell::Int(i) => Some(CellWrite::Integer(*i)),
        Cell::Float(f) => Some(CellWrite::Float(*f)),
        Cell::Text(s) => Some(CellWrite::Text(s.clone())),
        Cell::Other => None,
    }
}

/// The writes for a whole row; the write at position `k` goes to column `k`.
pub fn row_writes(row: &Vec<Cell>) -> (r: Vec<Option<CellWrite>>)
    ensures
        writes_view(r@) == written_row(row_view(row@)),
{
    let mut r: Vec<Option<CellWrite>> = Vec::new();
    for k in 0..row.len()
        invariant
            r@.len() == k,
            forall|j: int| 0 <= j < k ==> option_view(#[trigger] r@[j]) == written(row@[j]@),
    {
        let w = cell_write(&row[k]);
        r.push(w);
    }
    assert(writes_view(r@) =~= written_row(row_view(row@)));
    r
}

} // verus!

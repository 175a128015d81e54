use vstd::prelude::*;
use vstd::arithmetic::div_mod::{
    lemma_fundamental_div_mod, lemma_fundamental_div_mod_converse, lemma_mod_pos_bound,
};
use crate::cell::{CellView, WriteView, written, written_row};
use crate::paginate::{
    Page, header_len, page_content, page_end, page_rows, page_total, planned_page, planned_pages,
};

verus! {

/// The number of pages is `ceil(rows / count)`: every page but the last is
/// full, and the pages cover all rows. An empty sheet gives one page.
pub proof fn lemma_page_count(rows: usize, count: usize)
    requires
        count >= 1,
    ensures
        rows == 0 ==> page_total(rows as int, count as int) == 1,
        rows > 0 ==> (page_total(rows as int, count as int) - 1) * count < rows,
        rows > 0 ==> rows <= page_total(rows as int, count as int) * count,
        planned_pages(rows as int, count as int, 0).len() == page_total(rows as int, count as int),
{
    if rows > 0 {
        let x = rows + count - 1;
        let n = page_total(rows as int, count as int);
        lemma_fundamental_div_mod(x, count as int);
        lemma_mod_pos_bound(x, count as int);
        assert((n - 1) * count == n * count - count) by (nonlinear_arith);
        assert(count * n == n * count) by (nonlinear_arith);
    }
}

/// Page `p` (0-based) spans source rows `p * count .. page_end(p)`, and that
/// range is not empty unless the whole sheet is.
proof fn lemma_page_span(rows: usize, count: usize, p: int)
    requires
        count >= 1,
        0 <= p < page_total(rows as int, count as int),
    ensures
        0 <= p * count <= page_end(p, rows as int, count as int) <= rows,
        rows > 0 ==> p * count < rows,
        p == 0 ==> p * count == 0,
{
    lemma_page_count(rows, count);
    if rows > 0 {
        let n = page_total(rows as int, count as int);
        assert(p * count <= (n - 1) * count) by (nonlinear_arith)
            requires
                p <= n - 1,
                count >= 1,
        ;
    }
    assert(p * count >= 0) by (nonlinear_arith)
        requires
            p >= 0,
            count >= 1,
    ;
}

/// Every page after the first starts with the first `title` rows of the sheet
/// (all rows if it is shorter), written as they are.
pub proof fn lemma_header_repeated(
    sheet: Seq<Seq<CellView>>,
    count: usize,
    title: usize,
    p: int,
    j: int,
)
    requires
        count >= 1,
        title > 0,
        sheet.len() <= usize::MAX,
        1 <= p < page_total(sheet.len() as int, count as int),
        0 <= j < header_len(sheet.len() as int, title as int),
    ensures
        page_content(sheet, planned_page(p, sheet.len() as int, count as int, title as int))[j]
            == written_row(sheet[j]),
{
    let rows = sheet.len() as usize;
    lemma_page_span(rows, count, p);
    let pg = planned_page(p, rows as int, count as int, title as int);
    assert(page_rows(pg)[j] == j as usize);
}

/// With no header rows, a page holds its own source rows only, starting with
/// its first data row.
pub proof fn lemma_no_header(rows: usize, count: usize, p: int)
    requires
        count >= 1,
        0 <= p < page_total(rows as int, count as int),
    ensures
        planned_page(p, rows as int, count as int, 0).header_rows == 0,
        page_rows(planned_page(p, rows as int, count as int, 0)) =~= Seq::new(
            (page_end(p, rows as int, count as int) - p * count) as nat,
            |k: int| (p * count + k) as usize,
        ),
{
    lemma_page_span(rows, count, p);
}

/// Every source row `i` is the data of exactly one page, page `i / count`,
/// where it is written after that page's header rows, cell by cell.
pub proof fn lemma_row_placed_once(sheet: Seq<Seq<CellView>>, count: usize, title: usize, i: int)
    requires
        count >= 1,
        sheet.len() <= usize::MAX,
        0 <= i < sheet.len(),
    ensures
        ({
            let rows = sheet.len() as int;
            let p = i / count as int;
            let pg = planned_page(p, rows, count as int, title as int);
            &&& 0 <= p < page_total(rows, count as int)
            &&& pg.start <= i < pg.end
            &&& page_content(sheet, pg)[pg.header_rows + i - pg.start] == written_row(sheet[i])
            &&& forall|q: int|
                0 <= q < page_total(rows, count as int) && #[trigger] planned_page(
                    q,
                    rows,
                    count as int,
                    title as int,
                ).start <= i < planned_page(q, rows, count as int, title as int).end ==> q == p
        }),
{
    let rows = sheet.len() as usize;
    let c = count as int;
    let p = i / c;
    lemma_fundamental_div_mod(i, c);
    lemma_mod_pos_bound(i, c);
    lemma_page_count(rows, count);
    let n = page_total(rows as int, c);
    assert(p >= 0) by (nonlinear_arith)
        requires
            i == c * p + i % c,
            0 <= i % c < c,
            i >= 0,
    ;
    assert(p < n) by (nonlinear_arith)
        requires
            i == c * p + i % c,
            0 <= i % c < c,
            i < rows <= n * c,
            c >= 1,
    ;
    assert(p * c <= i < p * c + c) by (nonlinear_arith)
        requires
            i == c * p + i % c,
            0 <= i % c < c,
    ;
    lemma_page_span(rows, count, p);
    let pg = planned_page(p, rows as int, c, title as int);
    assert(pg.start <= i < pg.end);
    assert forall|q: int|
        0 <= q < n && #[trigger] planned_page(q, rows as int, c, title as int).start <= i
            < planned_page(q, rows as int, c, title as int).end implies q == p by {
        lemma_page_span(rows, count, q);
        lemma_fundamental_div_mod_converse(i, c, q, i - q * c);
    }
    let k = pg.header_rows + i - pg.start;
    assert(page_rows(pg)[k] == i as usize);
}

/// The cell writes follow the cell's kind: boolean to boolean, empty to the
/// empty string, number to number, string to string.
pub proof fn lemma_types_kept(c: CellView)
    ensures
        c is Bool ==> written(c) == Some(WriteView::Boolean(c->Bool_0)),
        c is Empty ==> written(c) == Some(WriteView::Text(Seq::empty())),
        c is Int ==> written(c) == Some(WriteView::Integer(c->Int_0)),
        c is Float ==> written(c) == Some(WriteView::Float(c->Float_0)),
        c is Text ==> written(c) == Some(WriteView::Text(c->Text_0)),
{
}

/// Two runs on the same sheet with the same settings write the same content
/// to every page.
pub proof fn lemma_same_input_same_output(
    sheet: Seq<Seq<CellView>>,
    count: usize,
    title: usize,
    first: Seq<Page>,
    second: Seq<Page>,
)
    requires
        first == planned_pages(sheet.len() as int, count as int, title as int),
        second == planned_pages(sheet.len() as int, count as int, title as int),
    ensures
        first.len() == second.len(),
        forall|p: int|
            0 <= p < first.len() ==> page_content(sheet, #[trigger] first[p]) == page_content(
                sheet,
                second[p],
            ),
{
}

} // verus!

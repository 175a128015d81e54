use vstd::prelude::*;
use vstd::arithmetic::div_mod::{
    lemma_fundamental_div_mod, lemma_fundamental_div_mod_converse, lemma_mod_pos_bound,
};
use crate::cell::{
    Cell, CellView, CellWrite, WriteView, row_writes, row_view, writes_view, written_row,
};

verus! {

/// One output file: its 1-based number, how many header rows are written at
/// its top, and the half-open range `start..end` of source rows that follow.
#[derive(Debug, Clone, Copy, PartialEq, Eq, Structural)]
pub struct Page {
    pub number: usize,
    pub header_rows: usize,
    pub start: usize,
    pub end: usize,
}

/// How many output files a sheet of `rows` rows gives: `ceil(rows / count)`,
/// and one (empty) file for an empty sheet.
pub open spec fn page_total(rows: int, count: int) -> int {
    if rows == 0 {
        1
    } else {
        (rows + count - 1) / count
    }
}

/// How many header rows are captured: the first `title` rows, or all of them
/// if the sheet is shorter.
pub open spec fn header_len(rows: int, title: int) -> int {
    if title < rows {
        title
    } else {
        rows
    }
}

/// One past the last source row of the 0-based page `p`.
pub open spec fn page_end(p: int, rows: int, count: int) -> int {
    if rows - p * count > count {
        p * count + count
    } else {
        rows
    }
}

/// The 0-based page `p`. The first page gets no repeated header: the header
/// rows are its own first source rows.
pub open spec fn planned_page(p: int, rows: int, count: int, title: int) -> Page {
    Page {
        number: (p + 1) as usize,
        header_rows: (if p == 0 {
            0
        } else {
            header_len(rows, title)
        }) as usize,
        start: (p * count) as usize,
        end: page_end(p, rows, count) as usize,
    }
}

/// All pages of a sheet of `rows` rows, in order.
pub open spec fn planned_pages(rows: int, count: int, title: int) -> Seq<Page> {
    Seq::new(page_total(rows, count) as nat, |p: int| planned_page(p, rows, count, title))
}

/// The source rows written to a page, in output order: the header rows, then
/// the page's own range.
pub open spec fn page_rows(pg: Page) -> Seq<usize> {
    Seq::new(pg.header_rows as nat, |j: int| j as usize) + Seq::new(
        (pg.end - pg.start) as nat,
        |j: int| (pg.start + j) as usize,
    )
}

pub open spec fn sheet_view(sheet: Seq<Vec<Cell>>) -> Seq<Seq<CellView>> {
    sheet.map_values(|r: Vec<Cell>| row_view(r@))
}

/// What is written to a page, row by row.
pub open spec fn page_content(sheet: Seq<Seq<CellView>>, pg: Page) -> Seq<Seq<Option<WriteView>>> {
    page_rows(pg).map_values(|i: usize| written_row(sheet[i as int]))
}

/// The number of output files for a sheet of `row_count` rows.
pub fn page_count(row_count: usize, count: usize) -> (r: usize)
    requires
        count >= 1,
    ensures
        r == page_total(row_count as int, count as int),
{
    if row_count == 0 {
        1
    } else {
        let q = row_count / count;
        if row_count % count == 0 {
            proof {
                lemma_fundamental_div_mod(row_count as int, count as int);
                lemma_fundamental_div_mod_converse(
                    row_count + count - 1,
                    count as int,
                    q as int,
                    count - 1,
                );
            }
            q
        } else {
            proof {
                lemma_fundamental_div_mod(row_count as int, count as int);
                lemma_mod_pos_bound(row_count as int, count as int);
                let rem = row_count % count;
                assert((q + 1) * count == q * count + count) by (nonlinear_arith);
                lemma_fundamental_div_mod_converse(
                    row_count + count - 1,
                    count as int,
                    q + 1,
                    rem - 1,
                );
                assert(q * count <= row_count) by (nonlinear_arith)
                    requires
                        row_count == count * q + rem,
                        rem >= 0,
                ;
                assert(q < row_count) by (nonlinear_arith)
                    requires
                        q * count <= row_count,
                        count >= 1,
                        rem > 0,
                        row_count == count * q + rem,
                ;
            }
            q + 1
        }
    }
}

/// Divides a sheet of `row_count` rows into pages of at most `count` source
/// rows each, repeating the first `title_rows` rows on every page but the first.
pub fn paginate(row_count: usize, count: usize, title_rows: usize) -> (r: Vec<Page>)
    requires
        count >= 1,
    ensures
        r@ == planned_pages(row_count as int, count as int, title_rows as int),
{
    let header = if title_rows < row_count {
        title_rows
    } else {
        row_count
    };
    let mut pages: Vec<Page> = Vec::new();
    let mut start: usize = 0;
    let mut number: usize = 1;
    loop
        invariant_except_break
            number >= 1,
            number - 1 <= start,
            start == (number - 1) * count,
            start == 0 || start < row_count,
            pages@.len() == number - 1,
            forall|p: int|
                0 <= p < number - 1 ==> #[trigger] pages@[p] == planned_page(
                    p,
                    row_count as int,
                    count as int,
                    title_rows as int,
                ),
        invariant
            count >= 1,
            header == header_len(row_count as int, title_rows as int),
        ensures
            pages@ =~= planned_pages(row_count as int, count as int, title_rows as int),
        decreases row_count - start,
    {
        let end = if row_count - start > count {
            start + count
        } else {
            row_count
        };
        let page = Page { number, header_rows: if number == 1 { 0 } else { header }, start, end };
        proof {
            assert(page == planned_page(
                number - 1,
                row_count as int,
                count as int,
                title_rows as int,
            ));
        }
        pages.push(page);
        if end >= row_count {
            proof {
                if row_count > 0 {
                    assert(number * count == start + count) by (nonlinear_arith)
                        requires
                            start == (number - 1) * count,
                    ;
                    lemma_fundamental_div_mod_converse(
                        row_count + count - 1,
                        count as int,
                        number as int,
                        row_count + count - 1 - number * count,
                    );
                }
            }
            break;
        }
        proof {
            assert(number * count == start + count) by (nonlinear_arith)
                requires
                    start == (number - 1) * count,
            ;
        }
        start = end;
        number = number + 1;
    }
    pages
}

impl Page {
    /// The source rows written to this page, in output order.
    pub fn output_rows(&self) -> (r: Vec<usize>)
        requires
            self.start <= self.end,
        ensures
            r@ == page_rows(*self),
    {
        let mut r: Vec<usize> = Vec::new();
        for j in 0..self.header_rows
            invariant
                r@ =~= Seq::new(j as nat, |k: int| k as usize),
        {
            r.push(j);
        }
        let ghost head = r@;
        for i in self.start..self.end
            invariant
                self.start <= i <= self.end,
                head == Seq::new(self.header_rows as nat, |k: int| k as usize),
                r@ =~= head + Seq::new((i - self.start) as nat, |k: int| (self.start + k) as usize),
        {
            r.push(i);
        }
        r
    }
}

/// The values to write to a page, row by row; the row at position `k` goes to
/// output row `k` and each value to the column of its position.
pub fn page_writes(sheet: &Vec<Vec<Cell>>, page: &Page) -> (r: Vec<Vec<Option<CellWrite>>>)
    requires
        page.start <= page.end <= sheet@.len(),
        page.header_rows <= sheet@.len(),
    ensures
        r@.len() == page_rows(*page).len(),
        forall|k: int|
            0 <= k < r@.len() ==> writes_view(#[trigger] r@[k]@) == page_content(
                sheet_view(sheet@),
                *page,
            )[k],
{
    let rows = page.output_rows();
    let mut r: Vec<Vec<Option<CellWrite>>> = Vec::new();
    for k in 0..rows.len()
        invariant
            rows@ == page_rows(*page),
            page.start <= page.end <= sheet@.len(),
            page.header_rows <= sheet@.len(),
            r@.len() == k,
            forall|j: int|
                0 <= j < k ==> writes_view(#[trigger] r@[j]@) == page_content(
                    sheet_view(sheet@),
                    *page,
                )[j],
    {
        let i = rows[k];
        let w = row_writes(&sheet[i]);
        r.push(w);
    }
    r
}

} // verus!

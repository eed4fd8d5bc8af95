//! The data source: one sheet behind one interface, either held whole or
//! served through a window of rows that is rebuilt when a request misses it.

use vstd::prelude::*;
use crate::cell::CellValue;
use crate::workbook::{
    clone_formula_row, clone_rows, formula_row_of, formula_window, formulas_of, grid_of,
    rows_between, LazySheetData, SheetData,
};

verus! {

/// The window of rows that a windowed source holds ready.
#[derive(Debug)]
pub struct RowCache {
    /// The row below the header row that the window starts at.
    pub start_row: usize,
    /// The rows of the window.
    pub rows: Vec<Vec<CellValue>>,
    /// The formulas of the rows of the window.
    pub formulas: Vec<Vec<Option<String>>>,
}

/// One sheet, loaded by one of two strategies.
#[derive(Debug)]
pub enum SheetDataSource {
    /// The whole sheet is held.
    Eager(SheetData),
    /// The sheet is served through a window of `cache_size` rows.
    Lazy { data: LazySheetData, cache: Option<RowCache>, cache_size: usize },
}

/// The formulas of the rows `start .. start + count` of `rows`, as far as they
/// exist.
pub open spec fn formulas_between(rows: Seq<Vec<Option<String>>>, start: int, count: int) -> Seq<
    Seq<Option<Seq<char>>>,
> {
    let end = if start + count < rows.len() {
        start + count
    } else {
        rows.len() as int
    };
    if 0 <= start <= end {
        formulas_of(rows.subrange(start, end))
    } else {
        Seq::empty()
    }
}

/// Where the window starts that is built for a request from row `start`: a
/// quarter of the window's size before it, or at the top of the sheet.
pub open spec fn window_start(start: int, size: int) -> int {
    if start >= size / 4 {
        start - size / 4
    } else {
        0
    }
}

/// The window holds what the sheet serves for `size` rows from the window's
/// start.
pub open spec fn window_of(cache: RowCache, data: LazySheetData, size: usize) -> bool {
    &&& grid_of(cache.rows@) == data.rows_in(cache.start_row as int, size as int)
    &&& formulas_of(cache.formulas@) == data.formulas_in(cache.start_row as int, size as int)
}

/// A copy of the rows `start .. start + count` of a grid of formulas, as far as
/// they exist.
pub fn clone_formula_rows(rows: &Vec<Vec<Option<String>>>, start: usize, count: usize) -> (out:
    Vec<Vec<Option<String>>>)
    ensures
        formulas_of(out@) == formulas_between(rows@, start as int, count as int),
{
    let mut out: Vec<Vec<Option<String>>> = Vec::new();
    if start >= rows.len() {
        return out;
    }
    let end: usize = if count < rows.len() - start {
        start + count
    } else {
        rows.len()
    };
    let mut i: usize = start;
    while i < end
        invariant
            start <= i <= end <= rows.len(),
            out@.len() == i - start,
            forall|k: int| 0 <= k < out@.len() ==> (#[trigger] out@[k])@ == rows@[start + k]@,
        decreases end - i,
    {
        out.push(clone_formula_row(&rows[i]));
        i += 1;
    }
    out
}

/// The rows of a request that lies whole in the window are rows of the
/// sheet.
proof fn lemma_window_rows(
    c: RowCache,
    data: LazySheetData,
    size: usize,
    start: int,
    count: int,
    rows: Seq<Vec<CellValue>>,
)
    requires
        grid_of(c.rows@) == data.rows_in(c.start_row as int, size as int),
        c.start_row <= start,
        start - c.start_row + data.served(start, count) <= c.rows@.len(),
        grid_of(rows) == rows_between(
            c.rows@,
            start - c.start_row,
            data.served(start, count),
        ),
    ensures
        grid_of(rows) == data.rows_in(start, count),
{
    let n = data.served(start, count);
    let offset = start - c.start_row;
    let body = data.range.body@;
    let held = data.served(c.start_row as int, size as int);
    assert(grid_of(c.rows@) == rows_between(body, c.start_row as int, held));
    let want = data.rows_in(start, count);
    assert forall|k: int| 0 <= k < n implies #[trigger] grid_of(rows)[k] == want[k] by {
        assert(grid_of(c.rows@)[offset + k] == body[c.start_row + offset + k]@);
    }
}

/// The formulas of a request that lies whole in the window are formulas of the
/// sheet.
proof fn lemma_window_formulas(
    c: RowCache,
    data: LazySheetData,
    size: usize,
    start: int,
    count: int,
    formulas: Seq<Vec<Option<String>>>,
)
    requires
        formulas_of(c.formulas@) == data.formulas_in(c.start_row as int, size as int),
        c.start_row <= start,
        start - c.start_row + data.served(start, count) <= c.formulas@.len(),
        formulas_of(formulas) == formulas_between(
            c.formulas@,
            start - c.start_row,
            data.served(start, count),
        ),
    ensures
        formulas_of(formulas) == data.formulas_in(start, count),
{
    let n = data.served(start, count);
    let offset = start - c.start_row;
    let want = data.formulas_in(start, count);
    assert(formulas_of(c.formulas@).len() == c.formulas@.len());
    assert forall|k: int| 0 <= k < n implies #[trigger] formulas_of(formulas)[k] == want[k] by {
        assert(formulas_of(c.formulas@)[offset + k] =~= want[k]);
    }
}

/// Serves a request from the window if the window holds it whole, else from
/// the sheet.
fn serve(data: &LazySheetData, c: &RowCache, size: usize, start: usize, count: usize) -> (out: (
    Vec<Vec<CellValue>>,
    Vec<Vec<Option<String>>>,
))
    requires
        window_of(*c, *data, size),
    ensures
        grid_of(out.0@) == data.rows_in(start as int, count as int),
        formulas_of(out.1@) == data.formulas_in(start as int, count as int),
        out.0@.len() > 0 ==> start + out.0@.len() <= usize::MAX,
{
    let end: usize = if start < data.height && count < data.height - start {
        start + count
    } else {
        data.height
    };
    let n: usize = if end > start {
        end - start
    } else {
        0
    };
    if start >= c.start_row && start - c.start_row <= c.rows.len() && n <= c.rows.len() - (start
        - c.start_row) && start - c.start_row <= c.formulas.len() && n <= c.formulas.len() - (start
        - c.start_row) {
        let offset: usize = start - c.start_row;
        let rows = clone_rows(&c.rows, offset, n);
        let formulas = clone_formula_rows(&c.formulas, offset, n);
        proof {
            lemma_window_rows(*c, *data, size, start as int, count as int, rows@);
            lemma_window_formulas(*c, *data, size, start as int, count as int, formulas@);
            assert(grid_of(rows@).len() == rows@.len());
        }
        (rows, formulas)
    } else {
        data.get_rows(start, count)
    }
}

impl SheetDataSource {
    /// The window, where there is one, holds rows of the sheet. A source that
    /// holds the whole sheet is always well formed.
    pub open spec fn wf(&self) -> bool {
        match *self {
            SheetDataSource::Eager(_) => true,
            SheetDataSource::Lazy { data, cache, cache_size } => match cache {
                Some(c) => window_of(c, data, cache_size),
                None => true,
            },
        }
    }

    /// The column names.
    pub open spec fn headers_spec(&self) -> Seq<String> {
        match *self {
            SheetDataSource::Eager(data) => data.headers@,
            SheetDataSource::Lazy { data, .. } => data.headers@,
        }
    }

    /// The number of columns.
    pub open spec fn width_spec(&self) -> usize {
        match *self {
            SheetDataSource::Eager(data) => data.width,
            SheetDataSource::Lazy { data, .. } => data.width,
        }
    }

    /// The number of rows below the header row.
    pub open spec fn height_spec(&self) -> usize {
        match *self {
            SheetDataSource::Eager(data) => data.height,
            SheetDataSource::Lazy { data, .. } => data.height,
        }
    }

    /// The cells of the rows that a request for `count` rows from row `start`
    /// is served, whatever the strategy and whatever the window holds.
    pub open spec fn rows_spec(&self, start: int, count: int) -> Seq<Seq<CellValue>> {
        match *self {
            SheetDataSource::Eager(data) => rows_between(data.rows@, start, count),
            SheetDataSource::Lazy { data, .. } => data.rows_in(start, count),
        }
    }

    /// The formulas of the rows that a request is served.
    pub open spec fn formulas_spec(&self, start: int, count: int) -> Seq<Seq<Option<Seq<char>>>> {
        match *self {
            SheetDataSource::Eager(data) => formulas_between(data.formulas@, start, count),
            SheetDataSource::Lazy { data, .. } => data.formulas_in(start, count),
        }
    }

    /// The cell at (`row`, `col`), if the sheet has one there.
    pub open spec fn cell_spec(&self, row: int, col: int) -> Option<CellValue> {
        let rows = self.rows_spec(row, 1);
        if rows.len() > 0 && 0 <= col < rows[0].len() {
            Some(rows[0][col])
        } else {
            None
        }
    }

    /// The formula of the cell at (`row`, `col`), if it has one.
    pub open spec fn formula_spec(&self, row: int, col: int) -> Option<Seq<char>> {
        let rows = self.formulas_spec(row, 1);
        if rows.len() > 0 && 0 <= col < rows[0].len() {
            rows[0][col]
        } else {
            None
        }
    }

    /// The cells of row `row`; none where the sheet has no such row.
    pub open spec fn row_spec(&self, row: int) -> Seq<CellValue> {
        let rows = self.rows_spec(row, 1);
        if rows.len() > 0 {
            rows[0]
        } else {
            Seq::empty()
        }
    }

    /// The two sources serve the same sheet by the same strategy; only their
    /// windows may differ.
    pub open spec fn same_sheet(&self, other: SheetDataSource) -> bool {
        match (*self, other) {
            (SheetDataSource::Eager(a), SheetDataSource::Eager(b)) => a == b,
            (
                SheetDataSource::Lazy { data, cache_size, .. },
                SheetDataSource::Lazy { data: data0, cache_size: size0, .. },
            ) => data == data0 && cache_size == size0,
            _ => false,
        }
    }

    /// Row `i` of the rows served from row `start` is row `start + i` of the
    /// sheet, and the sheet has no rows in the request beyond those served.
    pub proof fn lemma_rows_of_chunk(&self, start: int, count: int, i: int)
        requires
            0 <= start,
            0 <= i < count,
        ensures
            self.row_spec(start + i) == (if i < self.rows_spec(start, count).len() {
                self.rows_spec(start, count)[i]
            } else {
                Seq::<CellValue>::empty()
            }),
    {
    }

    /// A request from row `start` finds the window in place: the source holds
    /// the whole sheet, or `start` lies in the window.
    pub open spec fn covers(&self, start: int) -> bool {
        match *self {
            SheetDataSource::Eager(_) => true,
            SheetDataSource::Lazy { cache, .. } => match cache {
                Some(c) => c.start_row <= start < c.start_row + c.rows@.len(),
                None => false,
            },
        }
    }

    /// The source is `before` with its window rebuilt for a request from row
    /// `start`.
    pub open spec fn rebuilt_for(&self, before: SheetDataSource, start: int) -> bool {
        match (*self, before) {
            (
                SheetDataSource::Lazy { data, cache, cache_size },
                SheetDataSource::Lazy { data: data0, cache_size: size0, .. },
            ) => {
                &&& data == data0
                &&& cache_size == size0
                &&& cache is Some
                &&& cache->0.start_row == window_start(start, cache_size as int)
                &&& window_of(cache->0, data, cache_size)
            },
            _ => false,
        }
    }

    /// The source for a sheet that is held whole.
    pub fn eager(data: SheetData) -> (out: Self)
        ensures
            out == SheetDataSource::Eager(data),
            out.wf(),
    {
        SheetDataSource::Eager(data)
    }

    /// The source for a sheet that is served through a window of `cache_size`
    /// rows. No window is built before the first request.
    pub fn lazy(data: LazySheetData, cache_size: usize) -> (out: Self)
        ensures
            out == (SheetDataSource::Lazy { data, cache: None, cache_size }),
            out.wf(),
    {
        SheetDataSource::Lazy { data, cache: None, cache_size }
    }

    /// The column names.
    pub fn headers(&self) -> (out: &Vec<String>)
        ensures
            out@ == self.headers_spec(),
    {
        match self {
            SheetDataSource::Eager(data) => &data.headers,
            SheetDataSource::Lazy { data, .. } => &data.headers,
        }
    }

    /// The number of columns.
    pub fn width(&self) -> (out: usize)
        ensures
            out == self.width_spec(),
    {
        match self {
            SheetDataSource::Eager(data) => data.width,
            SheetDataSource::Lazy { data, .. } => data.width,
        }
    }

    /// The number of rows below the header row.
    pub fn height(&self) -> (out: usize)
        ensures
            out == self.height_spec(),
    {
        match self {
            SheetDataSource::Eager(data) => data.height,
            SheetDataSource::Lazy { data, .. } => data.height,
        }
    }

    /// The rows `start .. start + count` of the sheet, as far as it has them,
    /// and their formulas.
    ///
    /// A windowed source first looks whether `start` lies in its window. If not,
    /// it drops the window and builds a new one, which starts a quarter of its
    /// size before `start`. A request that the window holds whole is served from
    /// it; the rows of one that reaches past the window are read from the sheet.
    pub fn get_rows(&mut self, start: usize, count: usize) -> (out: (
        Vec<Vec<CellValue>>,
        Vec<Vec<Option<String>>>,
    ))
        requires
            old(self).wf(),
        ensures
            final(self).wf(),
            grid_of(out.0@) == old(self).rows_spec(start as int, count as int),
            formulas_of(out.1@) == old(self).formulas_spec(start as int, count as int),
            out.0@.len() > 0 ==> start + out.0@.len() <= usize::MAX,
            old(self).covers(start as int) ==> *final(self) == *old(self),
            !old(self).covers(start as int) ==> final(self).rebuilt_for(*old(self), start as int),
            final(self).same_sheet(*old(self)),
    {
        match self {
            SheetDataSource::Eager(data) => {
                let rows = clone_rows(&data.rows, start, count);
                let formulas = clone_formula_rows(&data.formulas, start, count);
                (rows, formulas)
            },
            SheetDataSource::Lazy { data, cache, cache_size } => {
                let needs_reload: bool = match cache {
                    None => true,
                    Some(c) => start < c.start_row || start - c.start_row >= c.rows.len(),
                };
                if needs_reload {
                    let quarter: usize = *cache_size / 4;
                    let cache_start: usize = if start >= quarter {
                        start - quarter
                    } else {
                        0
                    };
                    let (rows, formulas) = data.get_rows(cache_start, *cache_size);
                    *cache = Some(RowCache { start_row: cache_start, rows, formulas });
                }
                match cache {
                    Some(c) => serve(data, c, *cache_size, start, count),
                    None => data.get_rows(start, count),
                }
            },
        }
    }

    /// The cell at (`row`, `col`) and its formula, each if there is one.
    pub fn get_cell(&mut self, row: usize, col: usize) -> (out: (Option<CellValue>, Option<String>))
        requires
            old(self).wf(),
        ensures
            final(self).wf(),
            out.0 == old(self).cell_spec(row as int, col as int),
            crate::text::text_of(out.1) == old(self).formula_spec(row as int, col as int),
            old(self).covers(row as int) ==> *final(self) == *old(self),
            !old(self).covers(row as int) ==> final(self).rebuilt_for(*old(self), row as int),
            final(self).same_sheet(*old(self)),
    {
        let (rows, formulas) = self.get_rows(row, 1);
        let cell: Option<CellValue> = if rows.len() > 0 && col < rows[0].len() {
            Some(rows[0][col].clone())
        } else {
            None
        };
        let formula: Option<String> = if formulas.len() > 0 && col < formulas[0].len() {
            match &formulas[0][col] {
                Some(f) => Some(f.clone()),
                None => None,
            }
        } else {
            None
        };
        (cell, formula)
    }
}

/// After a request from row `first` has rebuilt the window, a request from row
/// `second` finds the window in place and rebuilds nothing, if `second` lies on
/// the sheet, at most a quarter of the window's size before `first` and less
/// than the other three quarters after it. So two requests that close together
/// never rebuild the window one after the other.
pub proof fn lemma_window_serves_nearby(
    after: SheetDataSource,
    before: SheetDataSource,
    first: int,
    second: int,
)
    requires
        after.rebuilt_for(before, first),
        after matches SheetDataSource::Lazy { data, cache_size, .. } && {
            &&& data.range.body@.len() >= data.height
            &&& first - cache_size / 4 <= second < first + (cache_size - cache_size / 4)
            &&& 0 <= second < data.height
        },
    ensures
        after.covers(second),
{
    match after {
        SheetDataSource::Lazy { data, cache, cache_size } => {
            let c = cache->0;
            let from = c.start_row as int;
            assert(grid_of(c.rows@) == rows_between(
                data.range.body@,
                from,
                data.served(from, cache_size as int),
            ));
        },
        _ => {},
    }
}

/// The two strategies serve the same rows and the same formulas: what a sheet
/// loaded whole holds for a request is what the sheet hands out on demand, for
/// a sheet whose block holds as many rows below the header as its height says
/// and whose size is that of its block.
pub proof fn lemma_strategies_agree(sheet: LazySheetData, whole: SheetData, start: int, count: int)
    requires
        whole.loaded_from(sheet.range, sheet.formula_range),
        sheet.height == crate::workbook::body_height(sheet.range.height),
        sheet.width == sheet.range.width,
        sheet.range.body@.len() == sheet.height,
        0 <= start,
        0 <= count,
    ensures
        SheetDataSource::Eager(whole).rows_spec(start, count) == (SheetDataSource::Lazy {
            data: sheet,
            cache: None,
            cache_size: 0,
        }).rows_spec(start, count),
        SheetDataSource::Eager(whole).formulas_spec(start, count) == (SheetDataSource::Lazy {
            data: sheet,
            cache: None,
            cache_size: 0,
        }).formulas_spec(start, count),
{
    let held = whole.formulas@;
    let all = formula_window(sheet.formula_range, 0, sheet.height as int, sheet.width as int);
    assert(formulas_of(held).len() == held.len());
    let a = formulas_between(held, start, count);
    let b = sheet.formulas_in(start, count);
    assert forall|k: int| 0 <= k < a.len() implies #[trigger] a[k] == b[k] by {
        assert(all[start + k] =~= b[k]);
    }
}

} // verus!

//! Sheets as the viewer holds them: the decoded block of a worksheet, the
//! sheet loaded whole, and the sheet that hands out its rows on demand.

use vstd::prelude::*;
use crate::cell::CellValue;
use crate::text::text_of;

verus! {

/// `Range` of `calamine`: the rectangular block of cells that it reads from a
/// worksheet. Nothing is known of what a value holds but through the names
/// and the functions below.
#[verifier::external_type_specification]
#[verifier::external_body]
#[verifier::reject_recursive_types(T)]
pub struct ExRange<T>(calamine::Range<T>);

/// The texts that a block of formula texts holds, by their place in the block:
/// row and column, each counted from 0 at the block's top left cell. A place
/// that `Range::get` of `calamine` has no text for is no key.
pub uninterp spec fn formula_cells(r: calamine::Range<std::string::String>) -> Map<
    (int, int),
    Seq<char>,
>;

/// The sheet position (row, column) of the top left cell of a block of formula
/// texts, as `Range::start` of `calamine` gives it: `None` for an empty block.
pub uninterp spec fn formula_start(r: calamine::Range<std::string::String>) -> Option<(u32, u32)>;

/// The text at a place of a block of formula texts, if the block holds one
/// there.
pub open spec fn formula_cell(
    r: calamine::Range<std::string::String>,
    row: int,
    col: int,
) -> Option<Seq<char>> {
    if formula_cells(r).contains_key((row, col)) {
        Some(formula_cells(r)[(row, col)])
    } else {
        None
    }
}

/// `Range::start` of `calamine`: the position of the block's top left cell.
/// The contract gives the result its name.
#[verifier::external_body]
pub(crate) fn range_start(r: &calamine::Range<std::string::String>) -> (s: Option<(u32, u32)>)
    ensures
        s == formula_start(*r),
{
    r.start()
}

/// `Range::get` of `calamine`, with the text copied out: the text at a place
/// of the block, counted from its top left cell, or `None` where the block does
/// not reach that far. The contract gives the texts of the block their name.
#[verifier::external_body]
pub(crate) fn range_get(r: &calamine::Range<std::string::String>, row: usize, col: usize) -> (out:
    Option<String>)
    ensures
        match out {
            Some(text) => formula_cells(*r).contains_key((row as int, col as int))
                && formula_cells(*r)[(row as int, col as int)] == text@,
            None => !formula_cells(*r).contains_key((row as int, col as int)),
        },
{
    r.get((row, col)).cloned()
}

/// The decoded block of cells of a worksheet, as a workbook reader hands it
/// over: the first row as texts, the rows below it as typed cells.
#[derive(Debug)]
pub struct DataRange {
    /// Rows in the block, the first row included.
    pub height: usize,
    /// Columns in the block.
    pub width: usize,
    /// The text of each cell of the first row.
    pub header: Vec<String>,
    /// The rows below the first.
    pub body: Vec<Vec<CellValue>>,
}

/// A sheet loaded whole.
#[derive(Debug, Clone)]
pub struct SheetData {
    pub headers: Vec<String>,
    pub rows: Vec<Vec<CellValue>>,
    /// The formula of each cell, where it has one; laid out as `rows`.
    pub formulas: Vec<Vec<Option<String>>>,
    pub width: usize,
    /// Rows below the header row.
    pub height: usize,
}

/// A sheet that keeps its block as it was read and hands out rows on demand.
#[derive(Debug)]
pub struct LazySheetData {
    /// The decoded block, as it was read.
    pub range: DataRange,
    /// The block of formula texts, where the sheet has one.
    pub formula_range: Option<calamine::Range<std::string::String>>,
    pub headers: Vec<String>,
    pub width: usize,
    /// Rows below the header row.
    pub height: usize,
}

/// A named table of a workbook.
#[derive(Debug, Clone)]
pub struct TableData {
    pub name: String,
    pub sheet_name: String,
    pub headers: Vec<String>,
    pub rows: Vec<Vec<CellValue>>,
}

/// The cells of a list of rows.
pub open spec fn grid_of(rows: Seq<Vec<CellValue>>) -> Seq<Seq<CellValue>> {
    Seq::new(rows.len(), |i: int| rows[i]@)
}

/// The texts of a row of optional formulas.
pub open spec fn formula_row_of(row: Vec<Option<String>>) -> Seq<Option<Seq<char>>> {
    Seq::new(row@.len(), |i: int| text_of(row@[i]))
}

/// The texts of a grid of optional formulas.
pub open spec fn formulas_of(rows: Seq<Vec<Option<String>>>) -> Seq<Seq<Option<Seq<char>>>> {
    Seq::new(rows.len(), |i: int| formula_row_of(rows[i]))
}

/// The rows `start .. start + count` of `rows`, as far as they exist.
pub open spec fn rows_between(rows: Seq<Vec<CellValue>>, start: int, count: int) -> Seq<
    Seq<CellValue>,
> {
    let end = if start + count < rows.len() {
        start + count
    } else {
        rows.len() as int
    };
    if 0 <= start <= end {
        grid_of(rows.subrange(start, end))
    } else {
        Seq::empty()
    }
}

/// The formula that a block of formula texts holds for the sheet position
/// (`row`, `col`): the text that stands there, if the block reaches that far and
/// the text is not empty. The block lies on the sheet with its top left cell at
/// its start.
pub open spec fn formula_in(r: calamine::Range<std::string::String>, row: int, col: int) -> Option<
    Seq<char>,
> {
    let origin = match formula_start(r) {
        Some(p) => p,
        None => (0u32, 0u32),
    };
    if row >= origin.0 && col >= origin.1 {
        match formula_cell(r, row - origin.0, col - origin.1) {
            Some(text) => if text.len() > 0 {
                Some(text)
            } else {
                None
            },
            None => None,
        }
    } else {
        None
    }
}

/// The formula that a sheet's formula block, if it has one, holds for the
/// sheet position (`row`, `col`).
pub open spec fn formula_at(
    block: Option<calamine::Range<std::string::String>>,
    row: int,
    col: int,
) -> Option<Seq<char>> {
    match block {
        Some(b) => formula_in(b, row, col),
        None => None,
    }
}

/// The formulas of the rows `first .. first + count` below the header row, in
/// `width` columns. Row `r` below the header is row `r + 1` of the sheet.
pub open spec fn formula_window(
    block: Option<calamine::Range<std::string::String>>,
    first: int,
    count: int,
    width: int,
) -> Seq<Seq<Option<Seq<char>>>> {
    Seq::new(
        if count > 0 {
            count as nat
        } else {
            0
        },
        |k: int|
            Seq::new(
                if width > 0 {
                    width as nat
                } else {
                    0
                },
                |c: int| formula_at(block, first + k + 1, c),
            ),
    )
}

/// A copy of a list of strings.
pub fn clone_strings(v: &Vec<String>) -> (out: Vec<String>)
    ensures
        out@ == v@,
{
    let mut out: Vec<String> = Vec::new();
    let mut i: usize = 0;
    while i < v.len()
        invariant
            0 <= i <= v.len(),
            out@ == v@.take(i as int),
        decreases v.len() - i,
    {
        out.push(v[i].clone());
        i += 1;
    }
    out
}

/// A copy of a row of cells.
pub fn clone_row(row: &Vec<CellValue>) -> (out: Vec<CellValue>)
    ensures
        out@ == row@,
{
    let mut out: Vec<CellValue> = Vec::new();
    let mut i: usize = 0;
    while i < row.len()
        invariant
            0 <= i <= row.len(),
            out@ == row@.take(i as int),
        decreases row.len() - i,
    {
        out.push(row[i].clone());
        i += 1;
    }
    out
}

/// A copy of the rows `start .. start + count` of `rows`, as far as they exist.
pub fn clone_rows(rows: &Vec<Vec<CellValue>>, start: usize, count: usize) -> (out: Vec<
    Vec<CellValue>,
>)
    ensures
        grid_of(out@) == rows_between(rows@, start as int, count as int),
        out@.len() > 0 ==> start + out@.len() <= usize::MAX,
{
    let mut out: Vec<Vec<CellValue>> = Vec::new();
    if start >= rows.len() {
        return out;
    }
    let end: usize = if count < rows.len() - start {
        start + count
    } else {
        rows.len()
    };
    let mut i: usize = start;
    while i < end
        invariant
            start <= i <= end <= rows.len(),
            out@.len() == i - start,
            forall|k: int| 0 <= k < out@.len() ==> (#[trigger] out@[k])@ == rows@[start + k]@,
        decreases end - i,
    {
        out.push(clone_row(&rows[i]));
        i += 1;
    }
    out
}

/// A copy of a row of optional formulas.
pub fn clone_formula_row(row: &Vec<Option<String>>) -> (out: Vec<Option<String>>)
    ensures
        out@ == row@,
{
    let mut out: Vec<Option<String>> = Vec::new();
    let mut i: usize = 0;
    while i < row.len()
        invariant
            0 <= i <= row.len(),
            out@ == row@.take(i as int),
        decreases row.len() - i,
    {
        let item: Option<String> = match &row[i] {
            Some(f) => Some(f.clone()),
            None => None,
        };
        out.push(item);
        i += 1;
    }
    out
}

/// The formula of the sheet position (`row`, `col`), read from the sheet's
/// formula block, whose top left cell lies at `origin`.
fn formula_from(
    block: &calamine::Range<std::string::String>,
    origin: (u32, u32),
    row: usize,
    col: usize,
) -> (out: Option<String>)
    requires
        origin == (match formula_start(*block) {
            Some(p) => p,
            None => (0u32, 0u32),
        }),
    ensures
        text_of(out) == formula_in(*block, row as int, col as int),
{
    if row >= origin.0 as usize && col >= origin.1 as usize {
        match range_get(block, row - origin.0 as usize, col - origin.1 as usize) {
            Some(text) => if text.as_str().is_empty() {
                None
            } else {
                Some(text)
            },
            None => None,
        }
    } else {
        None
    }
}

/// The formulas of the rows `first .. first + count` below the header row, in
/// `width` columns, read from the sheet's formula block.
pub fn formulas_for(
    block: &Option<calamine::Range<std::string::String>>,
    first: usize,
    count: usize,
    width: usize,
) -> (out: Vec<Vec<Option<String>>>)
    requires
        first + count <= usize::MAX,
    ensures
        formulas_of(out@) == formula_window(*block, first as int, count as int, width as int),
{
    let mut out: Vec<Vec<Option<String>>> = Vec::new();
    let origin: (u32, u32) = match block {
        Some(b) => match range_start(b) {
            Some(p) => p,
            None => (0u32, 0u32),
        },
        None => (0u32, 0u32),
    };
    let mut k: usize = 0;
    while k < count
        invariant
            first + count <= usize::MAX,
            0 <= k <= count,
            out@.len() == k,
            *block matches Some(b) ==> origin == (match formula_start(b) {
                Some(p) => p,
                None => (0u32, 0u32),
            }),
            forall|j: int|
                0 <= j < k ==> formula_row_of(#[trigger] out@[j]) == Seq::new(
                    width as nat,
                    |c: int| formula_at(*block, first + j + 1, c),
                ),
        decreases count - k,
    {
        let sheet_row: usize = first + k + 1;
        let mut line: Vec<Option<String>> = Vec::new();
        let mut c: usize = 0;
        while c < width
            invariant
                0 <= c <= width,
                sheet_row == first + k + 1,
                line@.len() == c,
                *block matches Some(b) ==> origin == (match formula_start(b) {
                    Some(p) => p,
                    None => (0u32, 0u32),
                }),
                forall|j: int|
                    0 <= j < c ==> text_of(#[trigger] line@[j]) == formula_at(
                        *block,
                        sheet_row as int,
                        j,
                    ),
            decreases width - c,
        {
            let item: Option<String> = match block {
                Some(b) => formula_from(b, origin, sheet_row, c),
                None => None,
            };
            line.push(item);
            c += 1;
        }
        out.push(line);
        k += 1;
    }
    out
}

/// The number of rows below the header row of a block of `height` rows.
pub open spec fn body_height(height: usize) -> usize {
    if height > 0 {
        (height - 1) as usize
    } else {
        0
    }
}

impl SheetData {
    /// The sheet is what loading the block `range` with the formula block
    /// `formula_range` gives: the first row as headers, the rows below it as data,
    /// and beside each data cell its formula, if the formula block holds one for
    /// its place on the sheet.
    pub open spec fn loaded_from(
        self,
        range: DataRange,
        formula_range: Option<calamine::Range<std::string::String>>,
    ) -> bool {
        &&& self.headers@ == (if range.height > 0 {
            range.header@
        } else {
            Seq::<String>::empty()
        })
        &&& self.rows@ == range.body@
        &&& self.width == range.width
        &&& self.height == body_height(range.height)
        &&& formulas_of(self.formulas@) == formula_window(
            formula_range,
            0,
            body_height(range.height) as int,
            range.width as int,
        )
    }

    /// Loads a sheet whole from its decoded block and its formula block.
    pub fn from_range_with_formulas(
        range: DataRange,
        formula_range: Option<calamine::Range<std::string::String>>,
    ) -> (out: Self)
        ensures
            out.loaded_from(range, formula_range),
    {
        let height: usize = if range.height > 0 {
            range.height - 1
        } else {
            0
        };
        let width: usize = range.width;
        let formulas = formulas_for(&formula_range, 0, height, width);
        let headers: Vec<String> = if range.height > 0 {
            range.header
        } else {
            Vec::new()
        };
        SheetData { headers, rows: range.body, formulas, width, height }
    }
}

impl LazySheetData {
    /// How many rows a request for `count` rows from row `start` is served:
    /// those of them that lie above the sheet's height.
    pub open spec fn served(&self, start: int, count: int) -> int {
        let end = if start + count < self.height {
            start + count
        } else {
            self.height as int
        };
        if end > start {
            end - start
        } else {
            0
        }
    }

    /// The cells of the rows that a request is served.
    pub open spec fn rows_in(&self, start: int, count: int) -> Seq<Seq<CellValue>> {
        rows_between(self.range.body@, start, self.served(start, count))
    }

    /// The formulas of the rows that a request is served.
    pub open spec fn formulas_in(&self, start: int, count: int) -> Seq<Seq<Option<Seq<char>>>> {
        formula_window(self.formula_range, start, self.served(start, count), self.width as int)
    }

    /// Keeps the block and the formula block, and takes the headers from the
    /// first row of the block.
    pub fn from_range_with_formulas(
        range: DataRange,
        formula_range: Option<calamine::Range<std::string::String>>,
    ) -> (out: Self)
        ensures
            out.range == range,
            out.formula_range == formula_range,
            out.headers@ == (if range.height > 0 {
                range.header@
            } else {
                Seq::<String>::empty()
            }),
            out.width == range.width,
            out.height == body_height(range.height),
    {
        let headers: Vec<String> = if range.height > 0 {
            clone_strings(&range.header)
        } else {
            Vec::new()
        };
        let width: usize = range.width;
        let height: usize = if range.height > 0 {
            range.height - 1
        } else {
            0
        };
        LazySheetData { range, formula_range, headers, width, height }
    }

    /// The rows `start .. start + count` below the header row, as far as they
    /// lie above the sheet's height, and their formulas.
    pub fn get_rows(&self, start: usize, count: usize) -> (out: (
        Vec<Vec<CellValue>>,
        Vec<Vec<Option<String>>>,
    ))
        ensures
            grid_of(out.0@) == self.rows_in(start as int, count as int),
            formulas_of(out.1@) == self.formulas_in(start as int, count as int),
            out.0@.len() > 0 ==> start + out.0@.len() <= usize::MAX,
    {
        let end: usize = if start < self.height && count < self.height - start {
            start + count
        } else {
            self.height
        };
        let n: usize = if end > start {
            end - start
        } else {
            0
        };
        let rows = clone_rows(&self.range.body, start, n);
        let formulas = formulas_for(&self.formula_range, start, n, self.width);
        (rows, formulas)
    }

    /// Loads the whole sheet from the block that was kept.
    pub fn to_sheet_data(self) -> (out: SheetData)
        ensures
            out.loaded_from(self.range, self.formula_range),
    {
        SheetData::from_range_with_formulas(self.range, self.formula_range)
    }
}

} // verus!

//! The search engine: a scan of the whole sheet, row by row and cell by cell,
//! for the cells whose display text holds the query, whatever the case.

use vstd::prelude::*;
use crate::cell::CellValue;
use crate::source::SheetDataSource;
use crate::text::{chars_of, contains_chars, contains_text, lowercase, unicode_lowercase};
use crate::tui::ProgressInfo;
use crate::workbook::grid_of;

verus! {

/// The number of rows that the search asks the source for at a time.
pub const SEARCH_CHUNK_SIZE: usize = 500;

/// (`a`) comes before (`b`) in the order of the scan: rows first, then columns.
pub open spec fn scan_before(a: (usize, usize), b: (usize, usize)) -> bool {
    a.0 < b.0 || (a.0 == b.0 && a.1 < b.1)
}

/// The matches stand in the order of the scan, none twice.
pub open spec fn sorted_matches(m: Seq<(usize, usize)>) -> bool {
    forall|i: int, j: int| 0 <= i < j < m.len() ==> scan_before(#[trigger] m[i], #[trigger] m[j])
}

/// The cell matches: its display text in lower case holds `needle`.
pub open spec fn cell_matches(cell: CellValue, needle: Seq<char>) -> bool {
    contains_text(unicode_lowercase(cell.display_text()), needle)
}

/// The matches among the first `n` columns of row `r`, from the left.
pub open spec fn row_hits(row: Seq<CellValue>, r: usize, n: int, needle: Seq<char>) -> Seq<
    (usize, usize),
>
    decreases n,
{
    if n <= 0 {
        Seq::empty()
    } else {
        let before = row_hits(row, r, n - 1, needle);
        if n - 1 < row.len() && cell_matches(row[n - 1], needle) {
            before.push((r, (n - 1) as usize))
        } else {
            before
        }
    }
}

/// The matches in the first `k` rows of the sheet, within its width, in the
/// order of the scan.
pub open spec fn sheet_hits(source: SheetDataSource, k: int, needle: Seq<char>) -> Seq<
    (usize, usize),
>
    decreases k,
{
    if k <= 0 {
        Seq::empty()
    } else {
        sheet_hits(source, k - 1, needle) + row_hits(
            source.row_spec(k - 1),
            (k - 1) as usize,
            source.width_spec() as int,
            needle,
        )
    }
}

/// All cells of the sheet that match the query: those whose display text in
/// lower case holds the query in lower case, in the order of the scan.
pub open spec fn found(source: SheetDataSource, query: Seq<char>) -> Seq<(usize, usize)> {
    sheet_hits(source, source.height_spec() as int, unicode_lowercase(query))
}

/// The matches of a row lie in that row, within the columns scanned, from left
/// to right.
pub proof fn lemma_row_hits(row: Seq<CellValue>, r: usize, n: int, needle: Seq<char>)
    requires
        n <= usize::MAX,
    ensures
        forall|i: int|
            0 <= i < row_hits(row, r, n, needle).len() ==> {
                &&& (#[trigger] row_hits(row, r, n, needle)[i]).0 == r
                &&& row_hits(row, r, n, needle)[i].1 < n
            },
        sorted_matches(row_hits(row, r, n, needle)),
    decreases n,
{
    if n > 0 {
        lemma_row_hits(row, r, n - 1, needle);
    }
}

/// The matches of the sheet lie on the sheet and stand in the order of the
/// scan.
pub proof fn lemma_sheet_hits(source: SheetDataSource, k: int, needle: Seq<char>)
    requires
        k <= usize::MAX,
    ensures
        forall|i: int|
            0 <= i < sheet_hits(source, k, needle).len() ==> {
                &&& (#[trigger] sheet_hits(source, k, needle)[i]).0 < k
                &&& sheet_hits(source, k, needle)[i].1 < source.width_spec()
            },
        sorted_matches(sheet_hits(source, k, needle)),
    decreases k,
{
    if k > 0 {
        lemma_sheet_hits(source, k - 1, needle);
        lemma_row_hits(
            source.row_spec(k - 1),
            (k - 1) as usize,
            source.width_spec() as int,
            needle,
        );
    }
}

/// Whether the cell matches: whether its display text in lower case holds
/// `needle`. The lower case is that of the standard library.
pub fn cell_hit(cell: &CellValue, needle: &Vec<char>) -> (r: bool)
    ensures
        r == cell_matches(*cell, needle@),
{
    let shown = cell.to_string();
    let lower = lowercase(shown.as_str());
    let hay = chars_of(lower.as_str());
    contains_chars(&hay, needle)
}

/// Appends the matches among the first `width` columns of row `r`.
pub fn scan_row(
    row: &Vec<CellValue>,
    r: usize,
    width: usize,
    needle: &Vec<char>,
    out: &mut Vec<(usize, usize)>,
)
    ensures
        final(out)@ == old(out)@ + row_hits(row@, r, width as int, needle@),
{
    let n: usize = if row.len() < width {
        row.len()
    } else {
        width
    };
    let mut c: usize = 0;
    while c < n
        invariant
            0 <= c <= n,
            n <= row.len(),
            n <= width,
            out@ == old(out)@ + row_hits(row@, r, c as int, needle@),
        decreases n - c,
    {
        if cell_hit(&row[c], needle) {
            out.push((r, c));
        }
        c += 1;
    }
    proof {
        lemma_row_hits_beyond(row@, r, n as int, width as int, needle@);
    }
}

/// Columns beyond the end of a row hold no match.
pub proof fn lemma_row_hits_beyond(
    row: Seq<CellValue>,
    r: usize,
    n: int,
    width: int,
    needle: Seq<char>,
)
    requires
        row.len() <= n <= width || n == width,
    ensures
        row_hits(row, r, width, needle) == row_hits(row, r, n, needle),
    decreases width - n,
{
    if n < width {
        lemma_row_hits_beyond(row, r, n, width - 1, needle);
    }
}

/// Scans the whole sheet for `needle`, a chunk of rows at a time. Progress,
/// where it is kept, counts the rows scanned after each chunk.
pub fn scan_sheet(
    source: &mut SheetDataSource,
    needle: &Vec<char>,
    progress: &mut Option<ProgressInfo>,
) -> (out: Vec<(usize, usize)>)
    requires
        old(source).wf(),
    ensures
        final(source).wf(),
        final(source).same_sheet(*old(source)),
        out@ == sheet_hits(*old(source), old(source).height_spec() as int, needle@),
        match *old(progress) {
            Some(p) => *final(progress) == Some(
                ProgressInfo {
                    current: if old(source).height_spec() > 0 {
                        old(source).height_spec()
                    } else {
                        p.current
                    },
                    ..p
                },
            ),
            None => *final(progress) is None,
        },
{
    let mut out: Vec<(usize, usize)> = Vec::new();
    let total: usize = source.height();
    let width: usize = source.width();
    let mut chunk_start: usize = 0;
    while chunk_start < total
        invariant
            0 <= chunk_start <= total,
            source.wf(),
            source.same_sheet(*old(source)),
            total == old(source).height_spec(),
            width == old(source).width_spec(),
            out@ == sheet_hits(*old(source), chunk_start as int, needle@),
            match *old(progress) {
                Some(p) => *progress == Some(
                    ProgressInfo {
                        current: if chunk_start > 0 {
                            chunk_start
                        } else {
                            p.current
                        },
                        ..p
                    },
                ),
                None => *progress is None,
            },
        decreases total - chunk_start,
    {
        let chunk_size: usize = if SEARCH_CHUNK_SIZE < total - chunk_start {
            SEARCH_CHUNK_SIZE
        } else {
            total - chunk_start
        };
        let ghost before = *source;
        let (rows, _formulas) = source.get_rows(chunk_start, chunk_size);
        let mut i: usize = 0;
        while i < chunk_size
            invariant
                0 <= i <= chunk_size,
                chunk_start + chunk_size <= total,
                total == old(source).height_spec(),
                width == old(source).width_spec(),
                before.same_sheet(*old(source)),
                grid_of(rows@) == before.rows_spec(chunk_start as int, chunk_size as int),
                out@ == sheet_hits(*old(source), chunk_start + i, needle@),
            decreases chunk_size - i,
        {
            proof {
                before.lemma_rows_of_chunk(chunk_start as int, chunk_size as int, i as int);
            }
            if i < rows.len() {
                scan_row(&rows[i], chunk_start + i, width, needle, &mut out);
            } else {
                proof {
                    lemma_row_hits_beyond(
                        Seq::<CellValue>::empty(),
                        (chunk_start + i) as usize,
                        0,
                        width as int,
                        needle@,
                    );
                }
            }
            i += 1;
        }
        match progress {
            Some(p) => {
                p.update(chunk_start + chunk_size);
            },
            None => {},
        }
        chunk_start += chunk_size;
    }
    out
}

} // verus!

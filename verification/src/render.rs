//! What a frame shows: the window of rows under the viewport, the highlight
//! of each cell, the title and the status line. Drawing is left to the caller.

use vstd::prelude::*;
use vstd::string::StringExecFns;
use crate::cell::CellValue;
use crate::source::SheetDataSource;
use crate::text::{
    chars_of, decimal, find_char, first_of, push_chars, push_decimal, push_str, str_is, text_of,
    texts,
};
use crate::tui::{address_text, scrolled, SessionView, TuiState, FEEDBACK_MILLIS};
use crate::workbook::{clone_strings, grid_of};

verus! {

/// How a cell stands out. Of the reasons that hold, the first in this order
/// counts.
#[derive(Debug, Clone, Copy, PartialEq, Eq, Structural)]
pub enum Highlight {
    /// The current match of the search.
    CurrentMatch,
    /// The cell under the cursor.
    CurrentCell,
    /// Another match of the search.
    SearchMatch,
    /// A cell in the row of the cursor.
    CurrentRow,
    /// A cell in the column of the cursor.
    CurrentColumn,
    /// None of these.
    Plain,
}

/// What a frame shows.
#[derive(Debug)]
pub struct Frame {
    /// The row below the header row that the window starts at.
    pub first_row: usize,
    pub headers: Vec<String>,
    /// The cells of the rows of the window.
    pub rows: Vec<Vec<CellValue>>,
    /// The display text of each cell of the window.
    pub texts: Vec<Vec<String>>,
    /// How each cell of the window stands out.
    pub highlights: Vec<Vec<Highlight>>,
    /// The share of the width that each column gets, in percent.
    pub column_percent: u16,
    /// The title of the table.
    pub title: String,
    /// The display text of the cell under the cursor.
    pub cell_text: String,
    /// The status line.
    pub status: String,
    /// The message that is up.
    pub feedback: Option<String>,
}

/// How the cell at (`row`, `col`) stands out in the session.
pub open spec fn highlight_of(v: SessionView, row: usize, col: usize) -> Highlight {
    if v.current_match_index is Some && v.current_match_index->0 < v.search_matches.len()
        && v.search_matches[v.current_match_index->0 as int] == (row, col) {
        Highlight::CurrentMatch
    } else if row == v.cursor_row && col == v.cursor_col {
        Highlight::CurrentCell
    } else if v.search_matches.contains((row, col)) {
        Highlight::SearchMatch
    } else if row == v.cursor_row {
        Highlight::CurrentRow
    } else if col == v.cursor_col {
        Highlight::CurrentColumn
    } else {
        Highlight::Plain
    }
}

/// How the first `n` cells of row `row` stand out.
pub open spec fn row_marks(v: SessionView, row: usize, n: nat) -> Seq<Highlight> {
    Seq::new(n, |c: int| highlight_of(v, row, c as usize))
}

/// Whether a row gets the background of every second row: the rows of odd
/// index do.
pub fn is_alternate_row(row: usize) -> (r: bool)
    ensures
        r == (row % 2 == 1),
{
    row % 2 == 1
}

/// The share of the width that each of `width` columns gets, in percent.
pub open spec fn column_share(width: usize) -> u16 {
    if width == 0 {
        100
    } else {
        (100int / (width as int)) as u16
    }
}

/// The display texts of a row of cells.
pub open spec fn display_row(row: Seq<CellValue>) -> Seq<Seq<char>> {
    Seq::new(row.len(), |i: int| row[i].display_text())
}

impl TuiState {
    /// The title of the table: the name of the active sheet, and its place
    /// among the sheets where there are several.
    pub open spec fn title_spec(&self) -> Seq<char> {
        let name = self.sheet_names@[self.current_sheet_index as int]@;
        if self.sheet_names@.len() > 1 {
            " "@ + name + " (Sheet "@ + decimal((self.current_sheet_index + 1) as nat) + "/"@
                + decimal(self.sheet_names@.len()) + ") "@
        } else {
            " "@ + name + " "@
        }
    }

    /// The words on the size of the sheet.
    pub open spec fn size_text(&self) -> Seq<char> {
        decimal(self.sheet_data.height_spec() as nat) + " rows × "@ + decimal(
            self.sheet_data.width_spec() as nat,
        ) + " columns"@
    }

    /// The status line: progress while an operation runs; the input in the
    /// jump mode or the search mode; the current match of a search; else the
    /// address of the cursor, the size of the sheet, the strategy and the theme.
    pub open spec fn status_spec(&self) -> Seq<char> {
        let address = address_text(self.cursor_row, self.cursor_col);
        if self.progress is Some {
            " ⏳ "@ + self.progress->0.format_spec() + " "@
        } else if self.jump_mode {
            " Jump to (row, cell like A5, or row,col): "@ + self.jump_input@ + " "@
        } else if self.search_mode {
            " Search: "@ + self.search_query@ + " "@
        } else if self.current_match_index is Some {
            " Match "@ + decimal((self.current_match_index->0 + 1) as nat) + "/"@ + decimal(
                self.search_matches@.len(),
            ) + " |  | "@ + address + "n:next N:prev Esc:clear | "@ + self.size_text() + (
            if self.sheet_names@.len() > 1 {
                " | Tab:next sheet ?:help q:quit "@
            } else {
                " | ?:help q:quit "@
            })
        } else {
            " "@ + address + " | "@ + self.size_text() + (if self.sheet_data is Lazy {
                " [Lazy] "@
            } else {
                ""@
            }) + " | Theme: "@ + self.current_theme.name_spec() + (if self.sheet_names@.len() > 1 {
                " | t:theme /:search Tab:sheet ?:help q:quit "@
            } else {
                " | t:theme /:search ?:help q:quit "@
            })
        }
    }

    /// How the cell at (`row`, `col`) stands out.
    pub fn cell_highlight(&self, row: usize, col: usize) -> (r: Highlight)
        requires
            self.wf(),
        ensures
            r == highlight_of(self@, row, col),
    {
        let current: bool = match self.current_match_index {
            Some(i) => i < self.search_matches.len() && self.search_matches[i].0 == row
                && self.search_matches[i].1 == col,
            None => false,
        };
        if current {
            return Highlight::CurrentMatch;
        }
        if row == self.cursor_row && col == self.cursor_col {
            return Highlight::CurrentCell;
        }
        let mut found: bool = false;
        let mut i: usize = 0;
        while i < self.search_matches.len()
            invariant
                0 <= i <= self.search_matches.len(),
                found == (exists|k: int|
                    0 <= k < i && #[trigger] self.search_matches@[k] == (row, col)),
            decreases self.search_matches.len() - i,
        {
            if self.search_matches[i].0 == row && self.search_matches[i].1 == col {
                found = true;
            }
            i += 1;
        }
        if found {
            Highlight::SearchMatch
        } else if row == self.cursor_row {
            Highlight::CurrentRow
        } else if col == self.cursor_col {
            Highlight::CurrentColumn
        } else {
            Highlight::Plain
        }
    }

    /// The title of the table.
    pub fn table_title(&self) -> (out: String)
        requires
            self.wf(),
        ensures
            out@ == self.title_spec(),
    {
        let mut out = String::new();
        push_str(&mut out, " ");
        push_str(&mut out, self.current_sheet_name());
        if self.sheet_names.len() > 1 {
            push_str(&mut out, " (Sheet ");
            push_decimal(&mut out, (self.current_sheet_index + 1) as u64);
            push_str(&mut out, "/");
            push_decimal(&mut out, self.sheet_names.len() as u64);
            push_str(&mut out, ") ");
        } else {
            push_str(&mut out, " ");
        }
        out
    }

    /// Appends the words on the size of the sheet.
    fn push_size(&self, out: &mut String)
        ensures
            final(out)@ == old(out)@ + self.size_text(),
    {
        push_decimal(out, self.sheet_data.height() as u64);
        push_str(out, " rows × ");
        push_decimal(out, self.sheet_data.width() as u64);
        push_str(out, " columns");
    }

    /// The status line.
    pub fn status_text(&self) -> (out: String)
        requires
            self.wf(),
        ensures
            out@ == self.status_spec(),
    {
        let mut out = String::new();
        match &self.progress {
            Some(progress) => {
                push_str(&mut out, " ⏳ ");
                let shown = progress.format();
                push_str(&mut out, shown.as_str());
                push_str(&mut out, " ");
                return out;
            },
            None => {},
        }
        if self.jump_mode {
            push_str(&mut out, " Jump to (row, cell like A5, or row,col): ");
            push_str(&mut out, self.jump_input.as_str());
            push_str(&mut out, " ");
            return out;
        }
        if self.search_mode {
            push_str(&mut out, " Search: ");
            push_str(&mut out, self.search_query.as_str());
            push_str(&mut out, " ");
            return out;
        }
        let address = self.current_cell_address();
        match self.current_match_index {
            Some(idx) => {
                let _count: usize = self.search_matches.len();
                push_str(&mut out, " Match ");
                push_decimal(&mut out, (idx + 1) as u64);
                push_str(&mut out, "/");
                push_decimal(&mut out, self.search_matches.len() as u64);
                push_str(&mut out, " |  | ");
                push_str(&mut out, address.as_str());
                push_str(&mut out, "n:next N:prev Esc:clear | ");
                self.push_size(&mut out);
                if self.sheet_names.len() > 1 {
                    push_str(&mut out, " | Tab:next sheet ?:help q:quit ");
                } else {
                    push_str(&mut out, " | ?:help q:quit ");
                }
            },
            None => {
                push_str(&mut out, " ");
                push_str(&mut out, address.as_str());
                push_str(&mut out, " | ");
                self.push_size(&mut out);
                match &self.sheet_data {
                    SheetDataSource::Lazy { .. } => {
                        push_str(&mut out, " [Lazy] ");
                    },
                    SheetDataSource::Eager(_) => {
                        push_str(&mut out, "");
                    },
                }
                push_str(&mut out, " | Theme: ");
                push_str(&mut out, self.current_theme.name());
                if self.sheet_names.len() > 1 {
                    push_str(&mut out, " | t:theme /:search Tab:sheet ?:help q:quit ");
                } else {
                    push_str(&mut out, " | t:theme /:search ?:help q:quit ");
                }
            },
        }
        out
    }

    /// The display texts of the cells of a row.
    pub fn row_display(row: &Vec<CellValue>) -> (out: Vec<String>)
        ensures
            texts(out@) == display_row(row@),
    {
        let mut out: Vec<String> = Vec::new();
        let mut i: usize = 0;
        while i < row.len()
            invariant
                0 <= i <= row.len(),
                out@.len() == i,
                forall|k: int| 0 <= k < i ==> (#[trigger] out@[k])@ == row@[k].display_text(),
            decreases row.len() - i,
        {
            out.push(row[i].to_string());
            i += 1;
        }
        out
    }

    /// How the first `n` cells of row `row` stand out.
    pub fn row_highlights(&self, row: usize, n: usize) -> (out: Vec<Highlight>)
        requires
            self.wf(),
        ensures
            out@ == row_marks(self@, row, n as nat),
    {
        let mut out: Vec<Highlight> = Vec::new();
        let mut c: usize = 0;
        while c < n
            invariant
                0 <= c <= n,
                self.wf(),
                out@ == row_marks(self@, row, c as nat),
            decreases n - c,
        {
            out.push(self.cell_highlight(row, c));
            c += 1;
        }
        out
    }

    /// What the frame shows at the time `now` in a viewport of `table_height`
    /// rows. The viewport moves to the cursor first, and a message that has been
    /// up for its time is dropped.
    pub fn render(&mut self, table_height: usize, now: u64) -> (frame: Frame)
        requires
            old(self).wf(),
        ensures
            final(self).wf(),
            final(self).kept_sheet(*old(self)),
            final(self)@ == (SessionView {
                scroll_offset: scrolled(
                    old(self).scroll_offset,
                    old(self).cursor_row,
                    table_height,
                ),
                feedback: match old(self)@.feedback {
                    Some((message, since)) => if now < since || now - since < FEEDBACK_MILLIS {
                        old(self)@.feedback
                    } else {
                        None
                    },
                    None => None,
                },
                ..old(self)@
            }),
            frame.first_row == final(self).scroll_offset,
            frame.headers@ == old(self).sheet_data.headers_spec(),
            grid_of(frame.rows@) == old(self).sheet_data.rows_spec(
                frame.first_row as int,
                table_height as int,
            ),
            frame.texts@.len() == frame.rows@.len(),
            frame.highlights@.len() == frame.rows@.len(),
            forall|i: int|
                0 <= i < frame.rows@.len() ==> texts((#[trigger] frame.texts@[i])@) == display_row(
                    frame.rows@[i]@,
                ),
            forall|i: int|
                0 <= i < frame.rows@.len() ==> (#[trigger] frame.highlights@[i])@ == row_marks(
                    final(self)@,
                    (frame.first_row + i) as usize,
                    frame.rows@[i]@.len(),
                ),
            frame.column_percent == column_share(old(self).sheet_data.width_spec()),
            frame.title@ == old(self).title_spec(),
            frame.cell_text@ == (match old(self).sheet_data.cell_spec(
                old(self).cursor_row as int,
                old(self).cursor_col as int,
            ) {
                Some(c) => c.display_text(),
                None => Seq::<char>::empty(),
            }),
            frame.status@ == old(self).status_spec(),
            text_of(frame.feedback) == (match final(self)@.feedback {
                Some((message, since)) => Some(message),
                None => None,
            }),
    {
        self.update_scroll(table_height);
        let feedback = self.current_feedback(now);
        let first_row: usize = self.scroll_offset;
        let headers = clone_strings(self.sheet_data.headers());
        let width: usize = self.sheet_data.width();
        let column_percent: u16 = if width == 0 {
            100
        } else {
            (100 / width) as u16
        };
        let title = self.table_title();
        let status = self.status_text();
        let (rows, _formulas) = self.sheet_data.get_rows(first_row, table_height);
        let (cell, _formula) = self.sheet_data.get_cell(self.cursor_row, self.cursor_col);
        let cell_text: String = match cell {
            Some(c) => c.to_string(),
            None => String::new(),
        };
        let mut shown: Vec<Vec<String>> = Vec::new();
        let mut highlights: Vec<Vec<Highlight>> = Vec::new();
        let mut i: usize = 0;
        while i < rows.len()
            invariant
                0 <= i <= rows.len(),
                self.wf(),
                rows@.len() > 0 ==> first_row + rows@.len() <= usize::MAX,
                shown@.len() == i,
                highlights@.len() == i,
                forall|k: int|
                    0 <= k < i ==> texts((#[trigger] shown@[k])@) == display_row(rows@[k]@),
                forall|k: int|
                    0 <= k < i ==> (#[trigger] highlights@[k])@ == row_marks(
                        self@,
                        (first_row + k) as usize,
                        rows@[k]@.len(),
                    ),
            decreases rows.len() - i,
        {
            shown.push(Self::row_display(&rows[i]));
            let marks = self.row_highlights(first_row + i, rows[i].len());
            highlights.push(marks);
            i += 1;
        }
        Frame {
            first_row,
            headers,
            rows,
            texts: shown,
            highlights,
            column_percent,
            title,
            cell_text,
            status,
            feedback,
        }
    }
}

/// A rectangle of the terminal, in cells.
#[derive(Debug, Clone, Copy, PartialEq, Eq, Structural)]
pub struct Rect {
    pub x: u16,
    pub y: u16,
    pub width: u16,
    pub height: u16,
}

/// The most columns that the popup of a message takes.
pub const FEEDBACK_MAX_WIDTH: u16 = 60;

/// The rows that the popup of a message takes.
pub const FEEDBACK_HEIGHT: u16 = 3;

/// `len` as a 16-bit number, by its low 16 bits.
pub open spec fn low16(len: usize) -> u16 {
    (len % 0x10000) as u16
}

/// The width of the popup of a message of `len` bytes: the length and three
/// columns on either side, but no more than sixty. The length counts by its low
/// 16 bits, and a sum beyond 16 bits counts as the most.
pub open spec fn feedback_width(len: usize) -> u16 {
    if low16(len) + 6 > FEEDBACK_MAX_WIDTH {
        FEEDBACK_MAX_WIDTH
    } else {
        (low16(len) + 6) as u16
    }
}

/// The place of a popup of the given size in the middle of an area: what the
/// area is wider and higher than the popup is shared between the two sides.
pub open spec fn centered(area_width: u16, area_height: u16, width: u16, height: u16) -> Rect {
    Rect {
        x: (if area_width > width {
            (area_width - width) / 2
        } else {
            0
        }) as u16,
        y: (if area_height > height {
            (area_height - height) / 2
        } else {
            0
        }) as u16,
        width,
        height,
    }
}

/// The place of the popup of a message of `message_len` bytes in an area.
pub fn feedback_popup(area_width: u16, area_height: u16, message_len: usize) -> (r: Rect)
    ensures
        r == centered(area_width, area_height, feedback_width(message_len), FEEDBACK_HEIGHT),
{
    let len: u16 = (message_len % 0x10000) as u16;
    let width: u16 = if len > FEEDBACK_MAX_WIDTH - 6 {
        FEEDBACK_MAX_WIDTH
    } else {
        len + 6
    };
    center(area_width, area_height, width, FEEDBACK_HEIGHT)
}

/// The place of a popup of the given size in the middle of an area.
pub fn center(area_width: u16, area_height: u16, width: u16, height: u16) -> (r: Rect)
    ensures
        r == centered(area_width, area_height, width, height),
{
    let x: u16 = if area_width > width {
        (area_width - width) / 2
    } else {
        0
    };
    let y: u16 = if area_height > height {
        (area_height - height) / 2
    } else {
        0
    };
    Rect { x, y, width, height }
}

/// The word for the kind of a cell.
pub open spec fn kind_name(cell: CellValue) -> Seq<char> {
    match cell {
        CellValue::Empty => "Empty"@,
        CellValue::String(_) => "String"@,
        CellValue::Int(_) => "Integer"@,
        CellValue::Float(_) => "Float"@,
        CellValue::Bool(_) => "Boolean"@,
        CellValue::Error(_) => "Error"@,
        CellValue::DateTime(_) => "DateTime"@,
    }
}

/// The word for the kind of a cell.
pub fn cell_kind_name(cell: &CellValue) -> (r: &'static str)
    ensures
        r@ == kind_name(*cell),
{
    match cell {
        CellValue::Empty => "Empty",
        CellValue::String(_) => "String",
        CellValue::Int(_) => "Integer",
        CellValue::Float(_) => "Float",
        CellValue::Bool(_) => "Boolean",
        CellValue::Error(_) => "Error",
        CellValue::DateTime(_) => "DateTime",
    }
}

/// A line without the carriage return at its end.
pub open spec fn without_return(line: Seq<char>) -> Seq<char> {
    if line.len() > 0 && line.last() == '\r' {
        line.drop_last()
    } else {
        line
    }
}

/// The lines of a text: it is cut at every line feed, and a line that was cut
/// there loses a carriage return before the line feed. A line feed at the end
/// starts no further line.
pub open spec fn lines_of(s: Seq<char>) -> Seq<Seq<char>>
    decreases s.len(),
{
    if s.len() == 0 {
        Seq::empty()
    } else {
        let cut = first_of(s, '\n');
        if 0 <= cut < s.len() {
            seq![without_return(s.take(cut))] + lines_of(s.skip(cut + 1))
        } else {
            seq![s]
        }
    }
}

/// The lines of a text.
pub fn split_lines(text: &str) -> (out: Vec<String>)
    ensures
        texts(out@) == lines_of(text@),
{
    let v = chars_of(text);
    let mut out: Vec<String> = Vec::new();
    let mut pos: usize = 0;
    proof {
        assert(v@.skip(0) == v@);
    }
    while pos < v.len()
        invariant
            0 <= pos <= v.len(),
            v@ == text@,
            lines_of(text@) == texts(out@) + lines_of(v@.skip(pos as int)),
        decreases v.len() - pos,
    {
        let cut: usize = find_char(&v, pos, '\n');
        let ghost rest = v@.skip(pos as int);
        let ghost before = texts(out@);
        let mut line = String::new();
        if cut < v.len() {
            let end: usize = if cut > pos && v[cut - 1] == '\r' {
                (cut - 1) as usize
            } else {
                cut
            };
            push_chars(&mut line, &v, pos, end);
            proof {
                assert(rest.skip(cut - pos + 1) == v@.skip(cut + 1));
                assert(line@ == without_return(rest.take(cut - pos)));
            }
            out.push(line);
            pos = cut + 1;
        } else {
            push_chars(&mut line, &v, pos, v.len());
            out.push(line);
            pos = v.len();
        }
    }
    out
}

/// What the value line of the detail of a cell says.
#[derive(Debug)]
pub enum DetailValue {
    /// The raw text of the cell.
    Text(String),
    /// The cell holds no text, and no formula either.
    Empty,
    /// The cell holds no text but a formula, which was not evaluated.
    EmptyFormulaResult,
    /// The sheet has no cell there, but a formula, which was not evaluated.
    FormulaNotEvaluated,
    /// The sheet has neither a cell there nor a formula.
    NoData,
}

/// The detail of the cell under the cursor.
#[derive(Debug)]
pub struct CellDetail {
    pub address: String,
    /// The header of the column, or nothing where it has none.
    pub header: String,
    pub formula: Option<String>,
    /// The word for the kind of the cell, where the sheet has a cell there.
    pub kind: Option<String>,
    pub value: DetailValue,
    /// The display text, where it differs from the raw text.
    pub display_value: Option<String>,
    /// The raw text, line by line.
    pub content: Vec<String>,
}

/// The text of a value line, where it shows a text of the cell.
pub open spec fn detail_value_view(v: DetailValue) -> Option<Seq<char>> {
    match v {
        DetailValue::Text(t) => Some(t@),
        _ => None,
    }
}

/// The detail is that of the cell `cell` with the formula `formula`, at the
/// address `address` under the header `header`.
pub open spec fn detail_of(
    detail: CellDetail,
    cell: Option<CellValue>,
    formula: Option<Seq<char>>,
    address: Seq<char>,
    header: Seq<char>,
) -> bool {
    &&& detail.address@ == address
    &&& detail.header@ == header
    &&& text_of(detail.formula) == formula
    &&& match cell {
        Some(c) => {
            &&& text_of(detail.kind) == Some(kind_name(c))
            &&& if c.raw_text().len() == 0 {
                if formula is Some {
                    detail.value is EmptyFormulaResult
                } else {
                    detail.value is Empty
                }
            } else {
                detail_value_view(detail.value) == Some(c.raw_text())
            }
            &&& text_of(detail.display_value) == (if c.display_text()
                != c.raw_text() {
                Some(c.display_text())
            } else {
                None
            })
            &&& texts(detail.content@) == lines_of(c.raw_text())
        },
        None => {
            &&& detail.kind is None
            &&& if formula is Some {
                detail.value is FormulaNotEvaluated
            } else {
                detail.value is NoData
            }
            &&& detail.display_value is None
            &&& detail.content@.len() == 0
        },
    }
}

impl TuiState {
    /// The detail of the cell under the cursor: where it is, what kind of value
    /// it holds, its formula, its raw text and its display text.
    pub fn cell_detail(&mut self) -> (detail: CellDetail)
        requires
            old(self).wf(),
        ensures
            final(self).wf(),
            final(self).kept_sheet(*old(self)),
            final(self)@ == old(self)@,
            detail_of(
                detail,
                old(self).sheet_data.cell_spec(
                    old(self).cursor_row as int,
                    old(self).cursor_col as int,
                ),
                old(self).sheet_data.formula_spec(
                    old(self).cursor_row as int,
                    old(self).cursor_col as int,
                ),
                address_text(old(self).cursor_row, old(self).cursor_col),
                if old(self).cursor_col < old(self).sheet_data.headers_spec().len() {
                    old(self).sheet_data.headers_spec()[old(self).cursor_col as int]@
                } else {
                    Seq::<char>::empty()
                },
            ),
    {
        let (cell, formula) = self.sheet_data.get_cell(self.cursor_row, self.cursor_col);
        let address = self.current_cell_address();
        let headers = self.sheet_data.headers();
        let header: String = if self.cursor_col < headers.len() {
            headers[self.cursor_col].clone()
        } else {
            String::new()
        };
        let has_formula: bool = formula.is_some();
        match cell {
            Some(c) => {
                let raw = c.to_raw_string();
                let shown = c.to_string();
                let kind = String::from_str(cell_kind_name(&c));
                let content = split_lines(raw.as_str());
                let display_value: Option<String> = if str_is(shown.as_str(), raw.as_str()) {
                    None
                } else {
                    Some(shown)
                };
                let value: DetailValue = if raw.as_str().is_empty() {
                    if has_formula {
                        DetailValue::EmptyFormulaResult
                    } else {
                        DetailValue::Empty
                    }
                } else {
                    DetailValue::Text(raw)
                };
                CellDetail {
                    address,
                    header,
                    formula,
                    kind: Some(kind),
                    value,
                    display_value,
                    content,
                }
            },
            None => {
                let value: DetailValue = if has_formula {
                    DetailValue::FormulaNotEvaluated
                } else {
                    DetailValue::NoData
                };
                CellDetail {
                    address,
                    header,
                    formula,
                    kind: None,
                    value,
                    display_value: None,
                    content: Vec::new(),
                }
            },
        }
    }
}

} // verus!

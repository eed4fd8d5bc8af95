//! The session controller of the interactive viewer: cursor and scroll,
//! search, jumps, sheet switching and the dispatch of key events.

use vstd::prelude::*;
use vstd::string::StringExecFns;
use crate::config::Config;
use crate::cell::CellValue;
use crate::display::{has_char, holds, push_quotes_replaced, quotes_replaced};
use crate::jump::{cell_address, column_letters, jump_result, push_column_letters, resolve_jump};
use crate::keys::{Event, KeyCode, KeyEventKind, KeyModifiers};
use crate::search::{found, lemma_sheet_hits, scan_sheet, sorted_matches};
use crate::selection::{first_named, lemma_first_named_absent, lemma_first_named_found};
use crate::source::SheetDataSource;
use crate::text::{
    chars_of, decimal, lowercase, push_chars, push_decimal, push_str, str_is, unicode_lowercase,
};
use crate::workbook::LazySheetData;

verus! {

/// The themes of the viewer.
#[derive(Debug, Clone, Copy, PartialEq, Eq, Structural)]
pub enum Theme {
    Default,
    Dracula,
    SolarizedDark,
    SolarizedLight,
    GitHubDark,
    Nord,
}

impl Theme {
    /// All themes, in the order in which they follow each other.
    pub open spec fn all_spec() -> Seq<Theme> {
        seq![
            Theme::Default,
            Theme::Dracula,
            Theme::SolarizedDark,
            Theme::SolarizedLight,
            Theme::GitHubDark,
            Theme::Nord,
        ]
    }

    /// The place of the theme among all themes.
    pub open spec fn position(self) -> int {
        match self {
            Theme::Default => 0,
            Theme::Dracula => 1,
            Theme::SolarizedDark => 2,
            Theme::SolarizedLight => 3,
            Theme::GitHubDark => 4,
            Theme::Nord => 5,
        }
    }

    /// The name of the theme as it is shown.
    pub open spec fn name_spec(self) -> Seq<char> {
        match self {
            Theme::Default => "Default"@,
            Theme::Dracula => "Dracula"@,
            Theme::SolarizedDark => "Solarized Dark"@,
            Theme::SolarizedLight => "Solarized Light"@,
            Theme::GitHubDark => "GitHub Dark"@,
            Theme::Nord => "Nord"@,
        }
    }

    /// All themes, in the order in which they follow each other.
    pub fn all() -> (r: &'static [Theme])
        ensures
            r@ == Theme::all_spec(),
    {
        &[
            Theme::Default,
            Theme::Dracula,
            Theme::SolarizedDark,
            Theme::SolarizedLight,
            Theme::GitHubDark,
            Theme::Nord,
        ]
    }

    /// The theme that follows this one; the first follows the last.
    pub fn next(&self) -> (r: Theme)
        ensures
            r == Theme::all_spec()[(self.position() + 1) % 6],
    {
        match self {
            Theme::Default => Theme::Dracula,
            Theme::Dracula => Theme::SolarizedDark,
            Theme::SolarizedDark => Theme::SolarizedLight,
            Theme::SolarizedLight => Theme::GitHubDark,
            Theme::GitHubDark => Theme::Nord,
            Theme::Nord => Theme::Default,
        }
    }

    /// The name of the theme as it is shown.
    pub fn name(&self) -> (r: &'static str)
        ensures
            r@ == self.name_spec(),
    {
        match self {
            Theme::Default => "Default",
            Theme::Dracula => "Dracula",
            Theme::SolarizedDark => "Solarized Dark",
            Theme::SolarizedLight => "Solarized Light",
            Theme::GitHubDark => "GitHub Dark",
            Theme::Nord => "Nord",
        }
    }
}

/// The theme that a name in lower case stands for; the default theme where it
/// stands for none.
pub open spec fn theme_named(lower: Seq<char>) -> Theme {
    if lower == "dracula"@ {
        Theme::Dracula
    } else if lower == "solarized dark"@ || lower == "solarizeddark"@ {
        Theme::SolarizedDark
    } else if lower == "solarized light"@ || lower == "solarizedlight"@ {
        Theme::SolarizedLight
    } else if lower == "github dark"@ || lower == "githubdark"@ {
        Theme::GitHubDark
    } else if lower == "nord"@ {
        Theme::Nord
    } else {
        Theme::Default
    }
}

/// The theme that a name in lower case stands for.
pub fn theme_of_lowercase(lower: &str) -> (r: Theme)
    ensures
        r == theme_named(lower@),
{
    if str_is(lower, "dracula") {
        Theme::Dracula
    } else if str_is(lower, "solarized dark") || str_is(lower, "solarizeddark") {
        Theme::SolarizedDark
    } else if str_is(lower, "solarized light") || str_is(lower, "solarizedlight") {
        Theme::SolarizedLight
    } else if str_is(lower, "github dark") || str_is(lower, "githubdark") {
        Theme::GitHubDark
    } else if str_is(lower, "nord") {
        Theme::Nord
    } else {
        Theme::Default
    }
}

/// How far a long operation has come.
#[derive(Debug, Clone)]
pub struct ProgressInfo {
    pub message: String,
    pub current: usize,
    pub total: usize,
}

/// The share of `current` in `total` in percent, rounded down and held to what
/// a machine integer can hold; a total of nothing counts as done.
pub open spec fn percent_of(current: usize, total: usize) -> usize {
    if total == 0 {
        100
    } else if (current * 100) / (total as int) > usize::MAX {
        usize::MAX
    } else {
        ((current * 100) / (total as int)) as usize
    }
}

impl ProgressInfo {
    /// The text of the progress: message, percentage, and the two counts.
    pub open spec fn format_spec(&self) -> Seq<char> {
        self.message@ + seq![' '] + decimal(percent_of(self.current, self.total) as nat) + "% ("@
            + decimal(self.current as nat) + seq!['/'] + decimal(self.total as nat) + seq![')']
    }

    /// Progress at its start.
    pub fn new(message: String, total: usize) -> (r: Self)
        ensures
            r.message == message,
            r.current == 0,
            r.total == total,
    {
        ProgressInfo { message, current: 0, total }
    }

    /// Sets the count of what is done.
    pub fn update(&mut self, current: usize)
        ensures
            final(self).current == current,
            final(self).message == old(self).message,
            final(self).total == old(self).total,
    {
        self.current = current;
    }

    /// The share of what is done, in percent.
    pub fn percentage(&self) -> (r: usize)
        ensures
            r == percent_of(self.current, self.total),
    {
        if self.total == 0 {
            100
        } else {
            let share: u128 = (self.current as u128 * 100) / (self.total as u128);
            if share > usize::MAX as u128 {
                usize::MAX
            } else {
                share as usize
            }
        }
    }

    /// The text of the progress.
    pub fn format(&self) -> (out: String)
        ensures
            out@ == self.format_spec(),
    {
        let mut out = self.message.clone();
        out.push(' ');
        push_decimal(&mut out, self.percentage() as u64);
        push_str(&mut out, "% (");
        push_decimal(&mut out, self.current as u64);
        out.push('/');
        push_decimal(&mut out, self.total as u64);
        out.push(')');
        out
    }
}

/// Sheets with more rows than this are served through a window.
pub const LAZY_LOADING_THRESHOLD: usize = 1000;

/// The number of rows of the window of a windowed source.
pub const ROW_CACHE_SIZE: usize = 200;

/// The number of rows that a page step moves the cursor.
pub const PAGE_STEP: usize = 10;

/// Sheets with more rows than this show progress while they are searched.
pub const PROGRESS_THRESHOLD: usize = 1000;

/// How long feedback stays up, in milliseconds.
pub const FEEDBACK_MILLIS: u64 = 2000;

/// The state of a session of the interactive viewer.
pub struct TuiState {
    pub sheet_names: Vec<String>,
    pub current_sheet_index: usize,
    pub sheet_data: SheetDataSource,
    pub should_quit: bool,
    /// The row of the cursor, counted below the header row.
    pub cursor_row: usize,
    pub cursor_col: usize,
    /// The first row that the viewport shows.
    pub scroll_offset: usize,
    pub show_help: bool,
    pub show_cell_detail: bool,
    /// Whether key presses go to the search query.
    pub search_mode: bool,
    pub search_query: String,
    /// The cells that match the query, as (row, column), in the order of the scan.
    pub search_matches: Vec<(usize, usize)>,
    /// The place of the current match in `search_matches`.
    pub current_match_index: Option<usize>,
    /// Whether key presses go to the jump input.
    pub jump_mode: bool,
    pub jump_input: String,
    /// A message for the user and the time, in milliseconds, at which it was set.
    pub copy_feedback: Option<(String, u64)>,
    pub progress: Option<ProgressInfo>,
    pub current_theme: Theme,
    pub config: Config,
}

/// What a session is, apart from the sheet and the configuration that it
/// holds: the texts as sequences of characters, the rest as it stands.
pub struct SessionView {
    pub sheet_index: usize,
    pub should_quit: bool,
    pub cursor_row: usize,
    pub cursor_col: usize,
    pub scroll_offset: usize,
    pub show_help: bool,
    pub show_cell_detail: bool,
    pub search_mode: bool,
    pub search_query: Seq<char>,
    pub search_matches: Seq<(usize, usize)>,
    pub current_match_index: Option<usize>,
    pub jump_mode: bool,
    pub jump_input: Seq<char>,
    /// The message and the time at which it was set.
    pub feedback: Option<(Seq<char>, u64)>,
    /// Message, current count and total count.
    pub progress: Option<(Seq<char>, usize, usize)>,
    pub theme: Theme,
}

/// The last index of a dimension of `n` places, or 0 where it has none.
pub open spec fn last_index(n: usize) -> usize {
    if n > 0 {
        (n - 1) as usize
    } else {
        0
    }
}

/// One place back in a dimension, clamped at its first place.
pub open spec fn step_back(at: usize) -> usize {
    if at > 0 {
        (at - 1) as usize
    } else {
        0
    }
}

/// One place on in a dimension of `n` places, clamped at its last place.
pub open spec fn step_on(at: usize, n: usize) -> usize {
    if at < last_index(n) {
        (at + 1) as usize
    } else {
        at
    }
}

/// `by` places back, clamped at the first place.
pub open spec fn page_back(at: usize, by: usize) -> usize {
    if at >= by {
        (at - by) as usize
    } else {
        0
    }
}

/// `by` places on in a dimension of `n` places, clamped at its last place.
pub open spec fn page_on(at: usize, by: usize, n: usize) -> usize {
    if at + by < last_index(n) {
        (at + by) as usize
    } else {
        last_index(n)
    }
}

/// The scroll offset that keeps the cursor row in a viewport of `viewport`
/// rows: the offset moves down just far enough when the cursor has left the
/// viewport at its bottom, and up to the cursor when it has left it at its top.
pub open spec fn scrolled(scroll: usize, cursor: usize, viewport: usize) -> usize {
    if cursor < scroll || viewport == 0 {
        cursor
    } else if cursor >= scroll + viewport {
        (cursor - viewport + 1) as usize
    } else {
        scroll
    }
}

/// The index of the match after the current one; the first follows the last,
/// and comes first where no match is current.
pub open spec fn next_index(current: Option<usize>, len: usize) -> usize {
    match current {
        Some(i) => ((i + 1) % (len as int)) as usize,
        None => 0,
    }
}

/// The index of the match before the current one; the last precedes the first,
/// and comes first where no match is current.
pub open spec fn prev_index(current: Option<usize>, len: usize) -> usize {
    match current {
        Some(i) => if i == 0 {
            (len - 1) as usize
        } else {
            (i - 1) as usize
        },
        None => (len - 1) as usize,
    }
}

/// The current index after `times` steps to the next match.
pub open spec fn next_index_times(current: Option<usize>, len: usize, times: nat) -> Option<usize>
    decreases times,
{
    if times == 0 {
        current
    } else {
        Some(next_index(next_index_times(current, len, (times - 1) as nat), len))
    }
}

impl SessionView {
    /// With the cursor at the match of index `i`, which becomes current.
    pub open spec fn at_match(self, i: usize) -> SessionView {
        SessionView {
            current_match_index: Some(i),
            cursor_row: self.search_matches[i as int].0,
            cursor_col: self.search_matches[i as int].1,
            ..self
        }
    }

    /// After a step to the next match: nothing where there is no match.
    pub open spec fn next_match(self) -> SessionView {
        if self.search_matches.len() == 0 {
            self
        } else {
            self.at_match(next_index(self.current_match_index, self.search_matches.len() as usize))
        }
    }

    /// After a step to the previous match: nothing where there is no match.
    pub open spec fn prev_match(self) -> SessionView {
        if self.search_matches.len() == 0 {
            self
        } else {
            self.at_match(prev_index(self.current_match_index, self.search_matches.len() as usize))
        }
    }

    /// Without query, matches and current match.
    pub open spec fn search_cleared(self) -> SessionView {
        SessionView {
            search_query: Seq::empty(),
            search_matches: Seq::empty(),
            current_match_index: None,
            ..self
        }
    }

    /// With the query `query` and without matches.
    pub open spec fn with_query(self, query: Seq<char>) -> SessionView {
        SessionView {
            search_query: query,
            search_matches: Seq::empty(),
            current_match_index: None,
            ..self
        }
    }

    /// After a search that found `hits` for the query: the first match, if
    /// there is one, is current and holds the cursor. An empty query has no
    /// matches, whatever `hits` is.
    pub open spec fn searched(self, hits: Seq<(usize, usize)>) -> SessionView {
        if self.search_query.len() == 0 || hits.len() == 0 {
            SessionView {
                search_matches: Seq::empty(),
                current_match_index: None,
                progress: None,
                ..self
            }
        } else {
            SessionView {
                search_matches: hits,
                current_match_index: Some(0),
                cursor_row: hits[0].0,
                cursor_col: hits[0].1,
                progress: None,
                ..self
            }
        }
    }

    /// With the cursor and the viewport at the top left.
    pub open spec fn cursor_reset(self) -> SessionView {
        SessionView { cursor_row: 0, cursor_col: 0, scroll_offset: 0, ..self }
    }

    /// After the jump input was confirmed on a sheet of `height` rows and
    /// `width` columns at the time `now`: an empty input only ends the jump mode;
    /// any other input is resolved, reported, and cleared.
    pub open spec fn jumped(self, height: usize, width: usize, now: u64) -> SessionView {
        if self.jump_input.len() == 0 {
            SessionView { jump_mode: false, ..self }
        } else {
            let to = jump_result(self.jump_input, height, width, self.cursor_row, self.cursor_col);
            SessionView {
                cursor_row: to.0,
                cursor_col: to.1,
                feedback: Some((to.2, now)),
                jump_mode: false,
                jump_input: Seq::empty(),
                ..self
            }
        }
    }
}

/// The text of an optional message.
pub open spec fn feedback_view(f: Option<(String, u64)>) -> Option<(Seq<char>, u64)> {
    match f {
        Some((m, t)) => Some((m@, t)),
        None => None,
    }
}

/// The texts of optional progress.
pub open spec fn progress_view(p: Option<ProgressInfo>) -> Option<(Seq<char>, usize, usize)> {
    match p {
        Some(info) => Some((info.message@, info.current, info.total)),
        None => None,
    }
}

impl View for TuiState {
    type V = SessionView;

    open spec fn view(&self) -> SessionView {
        SessionView {
            sheet_index: self.current_sheet_index,
            should_quit: self.should_quit,
            cursor_row: self.cursor_row,
            cursor_col: self.cursor_col,
            scroll_offset: self.scroll_offset,
            show_help: self.show_help,
            show_cell_detail: self.show_cell_detail,
            search_mode: self.search_mode,
            search_query: self.search_query@,
            search_matches: self.search_matches@,
            current_match_index: self.current_match_index,
            jump_mode: self.jump_mode,
            jump_input: self.jump_input@,
            feedback: feedback_view(self.copy_feedback),
            progress: progress_view(self.progress),
            theme: self.current_theme,
        }
    }
}

impl TuiState {
    /// The state is valid: the active sheet is one of the sheets, the cursor
    /// lies on the sheet, the matches lie on the sheet in the order of the scan,
    /// one of them is current if there are any, and at most one input mode is on.
    pub open spec fn wf(&self) -> bool {
        &&& self.sheet_names@.len() > 0
        &&& self.current_sheet_index < self.sheet_names@.len()
        &&& self.sheet_data.wf()
        &&& self.cursor_row <= last_index(self.sheet_data.height_spec())
        &&& self.cursor_col <= last_index(self.sheet_data.width_spec())
        &&& sorted_matches(self.search_matches@)
        &&& forall|i: int|
            0 <= i < self.search_matches@.len() ==> {
                &&& (#[trigger] self.search_matches@[i]).0 < self.sheet_data.height_spec()
                &&& self.search_matches@[i].1 < self.sheet_data.width_spec()
            }
        &&& match self.current_match_index {
            Some(i) => i < self.search_matches@.len(),
            None => self.search_matches@.len() == 0,
        }
        &&& self.search_query@.len() == 0 ==> self.search_matches@.len() == 0
        &&& !(self.search_mode && self.jump_mode)
    }

    /// The session holds the sheets, the sheet and the configuration of
    /// `before`, unchanged.
    pub open spec fn kept(&self, before: TuiState) -> bool {
        &&& self.sheet_names == before.sheet_names
        &&& self.sheet_data == before.sheet_data
        &&& self.config == before.config
    }

    /// The session holds the sheets and the configuration of `before`, and
    /// serves the same sheet; the window of the source may have moved.
    pub open spec fn kept_sheet(&self, before: TuiState) -> bool {
        &&& self.sheet_names == before.sheet_names
        &&& self.sheet_data.same_sheet(before.sheet_data)
        &&& self.config == before.config
    }

    /// The name of the active sheet.
    pub fn current_sheet_name(&self) -> (r: &str)
        requires
            self.wf(),
        ensures
            r@ == self.sheet_names@[self.current_sheet_index as int]@,
    {
        self.sheet_names[self.current_sheet_index].as_str()
    }

    /// Puts the cursor and the viewport at the top left of the sheet.
    pub fn reset_cursor(&mut self)
        requires
            old(self).wf(),
        ensures
            final(self).wf(),
            final(self).kept(*old(self)),
            final(self)@ == old(self)@.cursor_reset(),
    {
        self.cursor_row = 0;
        self.cursor_col = 0;
        self.scroll_offset = 0;
    }

    /// One row up, unless the cursor is on the first row; the viewport follows
    /// a cursor that leaves it at the top.
    pub fn move_up(&mut self)
        requires
            old(self).wf(),
        ensures
            final(self).wf(),
            final(self).kept(*old(self)),
            final(self)@ == (SessionView {
                cursor_row: step_back(old(self).cursor_row),
                scroll_offset: if old(self).cursor_row > 0 && step_back(old(self).cursor_row) < old(
                    self,
                ).scroll_offset {
                    step_back(old(self).cursor_row)
                } else {
                    old(self).scroll_offset
                },
                ..old(self)@
            }),
    {
        if self.cursor_row > 0 {
            self.cursor_row -= 1;
            if self.cursor_row < self.scroll_offset {
                self.scroll_offset = self.cursor_row;
            }
        }
    }

    /// One row down, unless the cursor is on the last row.
    pub fn move_down(&mut self)
        requires
            old(self).wf(),
        ensures
            final(self).wf(),
            final(self).kept(*old(self)),
            final(self)@ == (SessionView {
                cursor_row: step_on(old(self).cursor_row, old(self).sheet_data.height_spec()),
                ..old(self)@
            }),
    {
        let height: usize = self.sheet_data.height();
        if height > 0 && self.cursor_row < height - 1 {
            self.cursor_row += 1;
        }
    }

    /// Moves the viewport so that it shows the cursor row.
    pub fn update_scroll(&mut self, viewport_height: usize)
        requires
            old(self).wf(),
        ensures
            final(self).wf(),
            final(self).kept(*old(self)),
            final(self)@ == (SessionView {
                scroll_offset: scrolled(
                    old(self).scroll_offset,
                    old(self).cursor_row,
                    viewport_height,
                ),
                ..old(self)@
            }),
            final(self).scroll_offset <= final(self).cursor_row,
            viewport_height > 0 ==> final(self).cursor_row < final(self).scroll_offset
                + viewport_height,
    {
        if self.cursor_row < self.scroll_offset || viewport_height == 0 {
            self.scroll_offset = self.cursor_row;
        } else if self.cursor_row - self.scroll_offset >= viewport_height {
            self.scroll_offset = self.cursor_row - viewport_height + 1;
        }
    }

    /// One column to the left, unless the cursor is in the first column.
    pub fn move_left(&mut self)
        requires
            old(self).wf(),
        ensures
            final(self).wf(),
            final(self).kept(*old(self)),
            final(self)@ == (SessionView {
                cursor_col: step_back(old(self).cursor_col),
                ..old(self)@
            }),
    {
        if self.cursor_col > 0 {
            self.cursor_col -= 1;
        }
    }

    /// One column to the right, unless the cursor is in the last column.
    pub fn move_right(&mut self)
        requires
            old(self).wf(),
        ensures
            final(self).wf(),
            final(self).kept(*old(self)),
            final(self)@ == (SessionView {
                cursor_col: step_on(old(self).cursor_col, old(self).sheet_data.width_spec()),
                ..old(self)@
            }),
    {
        let width: usize = self.sheet_data.width();
        if width > 0 && self.cursor_col < width - 1 {
            self.cursor_col += 1;
        }
    }

    /// To the first column.
    pub fn move_to_start_of_row(&mut self)
        requires
            old(self).wf(),
        ensures
            final(self).wf(),
            final(self).kept(*old(self)),
            final(self)@ == (SessionView { cursor_col: 0, ..old(self)@ }),
    {
        self.cursor_col = 0;
    }

    /// To the last column.
    pub fn move_to_end_of_row(&mut self)
        requires
            old(self).wf(),
        ensures
            final(self).wf(),
            final(self).kept(*old(self)),
            final(self)@ == (SessionView {
                cursor_col: last_index(old(self).sheet_data.width_spec()),
                ..old(self)@
            }),
    {
        let width: usize = self.sheet_data.width();
        self.cursor_col = if width > 0 {
            width - 1
        } else {
            0
        };
    }

    /// Up by `page_size` rows, or to the first row.
    pub fn page_up(&mut self, page_size: usize)
        requires
            old(self).wf(),
        ensures
            final(self).wf(),
            final(self).kept(*old(self)),
            final(self)@ == (SessionView {
                cursor_row: page_back(old(self).cursor_row, page_size),
                ..old(self)@
            }),
    {
        self.cursor_row = if self.cursor_row >= page_size {
            self.cursor_row - page_size
        } else {
            0
        };
    }

    /// Down by `page_size` rows, or to the last row.
    pub fn page_down(&mut self, page_size: usize)
        requires
            old(self).wf(),
        ensures
            final(self).wf(),
            final(self).kept(*old(self)),
            final(self)@ == (SessionView {
                cursor_row: page_on(
                    old(self).cursor_row,
                    page_size,
                    old(self).sheet_data.height_spec(),
                ),
                ..old(self)@
            }),
    {
        let height: usize = self.sheet_data.height();
        let last: usize = if height > 0 {
            height - 1
        } else {
            0
        };
        self.cursor_row = if page_size < last - self.cursor_row {
            self.cursor_row + page_size
        } else {
            last
        };
    }

    /// To the first row.
    pub fn move_to_top(&mut self)
        requires
            old(self).wf(),
        ensures
            final(self).wf(),
            final(self).kept(*old(self)),
            final(self)@ == (SessionView { cursor_row: 0, ..old(self)@ }),
    {
        self.cursor_row = 0;
    }

    /// To the last row.
    pub fn move_to_bottom(&mut self)
        requires
            old(self).wf(),
        ensures
            final(self).wf(),
            final(self).kept(*old(self)),
            final(self)@ == (SessionView {
                cursor_row: last_index(old(self).sheet_data.height_spec()),
                ..old(self)@
            }),
    {
        let height: usize = self.sheet_data.height();
        self.cursor_row = if height > 0 {
            height - 1
        } else {
            0
        };
    }

    /// Puts the cursor on the current match, if there is one.
    pub fn jump_to_current_match(&mut self)
        requires
            old(self).wf(),
        ensures
            final(self).wf(),
            final(self).kept(*old(self)),
            final(self)@ == (match old(self).current_match_index {
                Some(i) => old(self)@.at_match(i),
                None => old(self)@,
            }),
    {
        match self.current_match_index {
            Some(idx) => {
                if idx < self.search_matches.len() {
                    let (row, col) = self.search_matches[idx];
                    self.cursor_row = row;
                    self.cursor_col = col;
                }
            },
            None => {},
        }
    }

    /// To the next match; from the last to the first.
    pub fn jump_to_next_match(&mut self)
        requires
            old(self).wf(),
        ensures
            final(self).wf(),
            final(self).kept(*old(self)),
            final(self)@ == old(self)@.next_match(),
    {
        if self.search_matches.len() == 0 {
            return ;
        }
        let next: usize = match self.current_match_index {
            Some(idx) => (idx + 1) % self.search_matches.len(),
            None => 0,
        };
        self.current_match_index = Some(next);
        self.jump_to_current_match();
    }

    /// To the previous match; from the first to the last.
    pub fn jump_to_prev_match(&mut self)
        requires
            old(self).wf(),
        ensures
            final(self).wf(),
            final(self).kept(*old(self)),
            final(self)@ == old(self)@.prev_match(),
    {
        if self.search_matches.len() == 0 {
            return ;
        }
        let prev: usize = match self.current_match_index {
            Some(idx) => {
                if idx == 0 {
                    self.search_matches.len() - 1
                } else {
                    idx - 1
                }
            },
            None => self.search_matches.len() - 1,
        };
        self.current_match_index = Some(prev);
        self.jump_to_current_match();
    }

    /// Drops the query, the matches and the current match.
    pub fn clear_search(&mut self)
        requires
            old(self).wf(),
        ensures
            final(self).wf(),
            final(self).kept(*old(self)),
            final(self)@ == old(self)@.search_cleared(),
    {
        self.search_query = String::new();
        self.search_matches = Vec::new();
        self.current_match_index = None;
    }
}

/// Moving the viewport to the cursor a second time, with the same height of
/// the viewport, changes nothing.
pub proof fn lemma_update_scroll_idempotent(scroll: usize, cursor: usize, viewport: usize)
    ensures
        scrolled(scrolled(scroll, cursor, viewport), cursor, viewport) == scrolled(
            scroll,
            cursor,
            viewport,
        ),
{
}

/// A step on and a step back lead to where they began, and so do a step back
/// and a step on, in the columns as in the rows: `at` is a valid place in a
/// dimension of `n` places. Only where the first step is held at the edge does
/// the second lead one place away from it.
pub proof fn lemma_steps_undo_each_other(at: usize, n: usize)
    requires
        at <= last_index(n),
    ensures
        at < last_index(n) ==> step_back(step_on(at, n)) == at,
        at > 0 ==> step_on(step_back(at), n) == at,
        at == last_index(n) ==> step_on(at, n) == at,
        at == 0 ==> step_back(at) == 0,
{
}

/// After `k` steps to the next match the current match is `k` places further
/// on, counted round the list.
pub proof fn lemma_next_index_times(i: usize, len: usize, k: nat)
    requires
        i < len,
    ensures
        next_index_times(Some(i), len, k) == Some(((i + k) % (len as int)) as usize),
    decreases k,
{
    if k > 0 {
        lemma_next_index_times(i, len, (k - 1) as nat);
        let n = len as int;
        let a = i + k - 1;
        assert(((a % n) + 1) % n == (a + 1) % n) by (nonlinear_arith)
            requires
                n > 0,
                a >= 0,
        ;
        assert(0 <= a % n < n) by (nonlinear_arith)
            requires
                n > 0,
                a >= 0,
        ;
    } else {
        assert((i as int) % (len as int) == i) by (nonlinear_arith)
            requires
                0 <= i < len,
        ;
    }
}

/// As many steps to the next match as there are matches lead back to the
/// match that was current.
pub proof fn lemma_next_match_cycles(i: usize, len: usize)
    requires
        i < len,
    ensures
        next_index_times(Some(i), len, len as nat) == Some(i),
{
    lemma_next_index_times(i, len, len as nat);
    assert((i + len) % (len as int) == i) by (nonlinear_arith)
        requires
            0 <= i < len,
    ;
}

/// What became of an attempt to put a text on the clipboard.
#[derive(Debug)]
pub enum ClipboardOutcome {
    /// The text is on the clipboard.
    Copied,
    /// The clipboard refused the text, with the reason it gave.
    SetFailed(String),
    /// There is no clipboard to reach, with the reason given.
    Unavailable(String),
}

/// A cell's text as it stands in a copied row: in quotation marks, with its
/// own quotation marks doubled, where it holds a tab, a line feed or a quotation
/// mark.
pub open spec fn escaped_cell(text: Seq<char>) -> Seq<char> {
    if holds(text, '\t') || holds(text, '\n') || holds(text, '"') {
        seq!['"'] + quotes_replaced(text, seq!['"', '"']) + seq!['"']
    } else {
        text
    }
}

/// The raw texts of the first `n` cells of a row, with tabs between them.
pub open spec fn row_text(row: Seq<CellValue>, n: int) -> Seq<char>
    decreases n,
{
    if n <= 0 {
        Seq::empty()
    } else if n == 1 {
        escaped_cell(row[0].raw_text())
    } else {
        row_text(row, n - 1) + seq!['\t'] + escaped_cell(row[n - 1].raw_text())
    }
}

/// The address of the cell at (`row`, `col`): the letters of the column, then
/// the number of the row, counted from 1.
pub open spec fn address_text(row: usize, col: usize) -> Seq<char> {
    column_letters((col + 1) as nat) + decimal((row + 1) as nat)
}

/// The message on an attempt to copy: `done` where it succeeded, else the
/// reason with a word on where it failed.
pub open spec fn copy_report(outcome: ClipboardOutcome, done: Seq<char>) -> Seq<char> {
    match outcome {
        ClipboardOutcome::Copied => done,
        ClipboardOutcome::SetFailed(e) => "Copy failed: "@ + e@,
        ClipboardOutcome::Unavailable(e) => "Clipboard error: "@ + e@,
    }
}

/// The message on a cell that was copied.
pub open spec fn cell_copied_text(row: usize, col: usize) -> Seq<char> {
    "Copied cell "@ + address_text(row, col)
}

/// The message on a row that was copied.
pub open spec fn row_copied_text(row: usize, width: usize) -> Seq<char> {
    "Copied row "@ + decimal((row + 1) as nat) + " ("@ + decimal(width as nat) + " cells)"@
}

/// The place of the first of `names` that is `name`, or 0 where none is.
pub open spec fn position_of(names: Seq<String>, name: Seq<char>) -> int {
    match first_named(names, name) {
        Some(i) => i,
        None => 0,
    }
}

/// The source is the one chosen for the sheet: a window over the sheet where
/// it has more rows than the threshold, else the sheet loaded whole.
pub open spec fn chosen_for(source: SheetDataSource, sheet: LazySheetData) -> bool {
    if sheet.height > LAZY_LOADING_THRESHOLD {
        source == (SheetDataSource::Lazy { data: sheet, cache: None, cache_size: ROW_CACHE_SIZE })
    } else {
        source matches SheetDataSource::Eager(d) && d.loaded_from(sheet.range, sheet.formula_range)
    }
}

/// Appends a cell's text as it stands in a copied row.
pub fn push_escaped(out: &mut String, text: &str)
    ensures
        final(out)@ == old(out)@ + escaped_cell(text@),
{
    let v = chars_of(text);
    if has_char(&v, '\t') || has_char(&v, '\n') || has_char(&v, '"') {
        out.push('"');
        push_quotes_replaced(out, &v, "\"\"");
        out.push('"');
        proof {
            reveal_strlit("\"\"");
            assert("\"\""@ =~= seq!['"', '"']);
        }
    } else {
        push_str(out, text);
    }
}

/// The raw texts of the cells of a row, with tabs between them.
pub fn row_to_text(row: &Vec<CellValue>) -> (out: String)
    ensures
        out@ == row_text(row@, row@.len() as int),
{
    let mut out = String::new();
    let mut i: usize = 0;
    while i < row.len()
        invariant
            0 <= i <= row.len(),
            out@ == row_text(row@, i as int),
        decreases row.len() - i,
    {
        if i > 0 {
            out.push('\t');
        }
        let value = row[i].to_raw_string();
        push_escaped(&mut out, value.as_str());
        i += 1;
    }
    out
}

/// The address of the cell at (`row`, `col`).
pub fn cell_address_text(row: usize, col: usize) -> (out: String)
    requires
        row < usize::MAX,
    ensures
        out@ == address_text(row, col),
{
    let mut out = String::new();
    push_column_letters(&mut out, col as u128 + 1);
    push_decimal(&mut out, (row + 1) as u64);
    out
}

/// The message on an attempt to copy.
pub fn copy_message(outcome: ClipboardOutcome, done: String) -> (out: String)
    ensures
        out@ == copy_report(outcome, done@),
{
    match outcome {
        ClipboardOutcome::Copied => done,
        ClipboardOutcome::SetFailed(e) => {
            let mut out = String::new();
            push_str(&mut out, "Copy failed: ");
            push_str(&mut out, e.as_str());
            out
        },
        ClipboardOutcome::Unavailable(e) => {
            let mut out = String::new();
            push_str(&mut out, "Clipboard error: ");
            push_str(&mut out, e.as_str());
            out
        },
    }
}

/// The place of the first of `sheet_names` that is `name`, or 0 where none is.
pub fn initial_sheet_index(sheet_names: &Vec<String>, name: &str) -> (r: usize)
    ensures
        r == position_of(sheet_names@, name@),
        sheet_names@.len() > 0 ==> r < sheet_names@.len(),
{
    let mut i: usize = 0;
    while i < sheet_names.len()
        invariant
            0 <= i <= sheet_names.len(),
            forall|k: int| 0 <= k < i ==> (#[trigger] sheet_names@[k])@ != name@,
        decreases sheet_names.len() - i,
    {
        if str_is(sheet_names[i].as_str(), name) {
            proof {
                lemma_first_named_found(sheet_names@, name@, i as int);
            }
            return i;
        }
        i += 1;
    }
    proof {
        lemma_first_named_absent(sheet_names@, name@);
    }
    0
}

/// The source for a sheet: a window over it where it has more rows than the
/// threshold, else the sheet loaded whole.
pub fn choose_source(sheet: LazySheetData) -> (out: SheetDataSource)
    ensures
        chosen_for(out, sheet),
        out.wf(),
{
    if sheet.height > LAZY_LOADING_THRESHOLD {
        SheetDataSource::lazy(sheet, ROW_CACHE_SIZE)
    } else {
        SheetDataSource::eager(sheet.to_sheet_data())
    }
}

impl TuiState {
    /// The theme that a name stands for, whatever the case of its letters; the
    /// default theme where it stands for none.
    pub fn parse_theme_name(name: &str) -> (r: Theme)
        ensures
            r == theme_named(unicode_lowercase(name@)),
    {
        let lower = lowercase(name);
        theme_of_lowercase(lower.as_str())
    }

    /// A session on the sheet `sheet`, which is the one of `sheet_names` that
    /// `initial_sheet_name` names, or the first of them where none is named so.
    /// The cursor is at the top left, no mode is on, and the theme is that of the
    /// configuration.
    pub fn new(
        sheet_names: Vec<String>,
        initial_sheet_name: &str,
        sheet: LazySheetData,
        config: Config,
    ) -> (out: Self)
        requires
            sheet_names@.len() > 0,
        ensures
            out.wf(),
            out.sheet_names == sheet_names,
            out.config == config,
            chosen_for(out.sheet_data, sheet),
            out@ == (SessionView {
                sheet_index: position_of(sheet_names@, initial_sheet_name@) as usize,
                should_quit: false,
                cursor_row: 0,
                cursor_col: 0,
                scroll_offset: 0,
                show_help: false,
                show_cell_detail: false,
                search_mode: false,
                search_query: Seq::empty(),
                search_matches: Seq::empty(),
                current_match_index: None,
                jump_mode: false,
                jump_input: Seq::empty(),
                feedback: None,
                progress: None,
                theme: theme_named(unicode_lowercase(config.theme.default@)),
            }),
    {
        let current_sheet_index: usize = initial_sheet_index(&sheet_names, initial_sheet_name);
        let sheet_data = choose_source(sheet);
        let current_theme = Self::parse_theme_name(config.theme.default.as_str());
        TuiState {
            sheet_names,
            current_sheet_index,
            sheet_data,
            should_quit: false,
            cursor_row: 0,
            cursor_col: 0,
            scroll_offset: 0,
            show_help: false,
            show_cell_detail: false,
            search_mode: false,
            search_query: String::new(),
            search_matches: Vec::new(),
            current_match_index: None,
            jump_mode: false,
            jump_input: String::new(),
            copy_feedback: None,
            progress: None,
            current_theme,
            config,
        }
    }

    /// Makes the sheet after the active one the active one, the first after the
    /// last, and gives its index: the caller loads that sheet and hands it to
    /// `load_current_sheet`. With a single sheet nothing happens.
    pub fn switch_to_next_sheet(&mut self) -> (r: Option<usize>)
        requires
            old(self).wf(),
        ensures
            final(self).kept(*old(self)),
            old(self).sheet_names@.len() <= 1 ==> r is None && final(self)@ == old(self)@,
            old(self).sheet_names@.len() > 1 ==> r == Some(final(self).current_sheet_index)
                && final(self)@ == (SessionView {
                sheet_index: ((old(self).current_sheet_index + 1) % (old(
                    self,
                ).sheet_names@.len() as int)) as usize,
                ..old(self)@
            }),
            final(self).wf(),
    {
        if self.sheet_names.len() <= 1 {
            return None;
        }
        self.current_sheet_index = (self.current_sheet_index + 1) % self.sheet_names.len();
        Some(self.current_sheet_index)
    }

    /// Makes the sheet before the active one the active one, the last before
    /// the first, and gives its index: the caller loads that sheet and hands it
    /// to `load_current_sheet`. With a single sheet nothing happens.
    pub fn switch_to_prev_sheet(&mut self) -> (r: Option<usize>)
        requires
            old(self).wf(),
        ensures
            final(self).kept(*old(self)),
            old(self).sheet_names@.len() <= 1 ==> r is None && final(self)@ == old(self)@,
            old(self).sheet_names@.len() > 1 ==> r == Some(final(self).current_sheet_index)
                && final(self)@ == (SessionView {
                sheet_index: if old(self).current_sheet_index == 0 {
                    (old(self).sheet_names@.len() - 1) as usize
                } else {
                    (old(self).current_sheet_index - 1) as usize
                },
                ..old(self)@
            }),
            final(self).wf(),
    {
        if self.sheet_names.len() <= 1 {
            return None;
        }
        self.current_sheet_index = if self.current_sheet_index == 0 {
            self.sheet_names.len() - 1
        } else {
            self.current_sheet_index - 1
        };
        Some(self.current_sheet_index)
    }

    /// Takes the sheet that was loaded for the active index: chooses its
    /// source, puts the cursor at the top left and drops the search.
    pub fn load_current_sheet(&mut self, sheet: LazySheetData)
        requires
            old(self).wf(),
        ensures
            final(self).wf(),
            final(self).sheet_names == old(self).sheet_names,
            final(self).config == old(self).config,
            chosen_for(final(self).sheet_data, sheet),
            final(self)@ == old(self)@.cursor_reset().search_cleared(),
    {
        self.reset_cursor();
        self.clear_search();
        self.sheet_data = choose_source(sheet);
    }

    /// Searches the sheet for the query, whatever the case: every cell whose
    /// display text holds the query becomes a match, in the order of the scan. The
    /// first match, if there is one, becomes current and takes the cursor. An
    /// empty query only drops the matches.
    pub fn perform_search(&mut self)
        requires
            old(self).wf(),
        ensures
            final(self).wf(),
            final(self).kept_sheet(*old(self)),
            final(self)@ == old(self)@.searched(
                found(old(self).sheet_data, old(self).search_query@),
            ),
            sorted_matches(final(self).search_matches@),
    {
        self.search_matches = Vec::new();
        self.current_match_index = None;
        if self.search_query.as_str().is_empty() {
            self.progress = None;
            return ;
        }
        let lower = lowercase(self.search_query.as_str());
        let needle = chars_of(lower.as_str());
        let total_height: usize = self.sheet_data.height();
        if total_height > PROGRESS_THRESHOLD {
            self.progress = Some(ProgressInfo::new(String::from_str("Searching"), total_height));
        }
        proof {
            lemma_sheet_hits(self.sheet_data, total_height as int, needle@);
        }
        let hits = scan_sheet(&mut self.sheet_data, &needle, &mut self.progress);
        self.search_matches = hits;
        self.progress = None;
        if self.search_matches.len() > 0 {
            self.current_match_index = Some(0);
            let (row, col) = self.search_matches[0];
            self.cursor_row = row;
            self.cursor_col = col;
        } else {
            proof {
                assert(self.search_matches@ =~= Seq::empty());
            }
        }
    }

    /// Turns the jump mode on, with an empty input.
    pub fn enter_jump_mode(&mut self)
        requires
            old(self).wf(),
            !old(self).search_mode,
        ensures
            final(self).wf(),
            final(self).kept(*old(self)),
            final(self)@ == (SessionView {
                jump_mode: true,
                jump_input: Seq::empty(),
                ..old(self)@
            }),
    {
        self.jump_mode = true;
        self.jump_input = String::new();
    }

    /// Confirms the jump input at the time `now`: resolves it, moves the cursor
    /// where it is valid, reports what happened, and leaves the jump mode. An
    /// empty input only leaves the jump mode.
    pub fn perform_jump(&mut self, now: u64)
        requires
            old(self).wf(),
        ensures
            final(self).wf(),
            final(self).kept(*old(self)),
            final(self)@ == old(self)@.jumped(
                old(self).sheet_data.height_spec(),
                old(self).sheet_data.width_spec(),
                now,
            ),
    {
        if self.jump_input.as_str().is_empty() {
            self.jump_mode = false;
            return ;
        }
        let height: usize = self.sheet_data.height();
        let width: usize = self.sheet_data.width();
        let (row, col, message) = resolve_jump(
            self.jump_input.as_str(),
            height,
            width,
            self.cursor_row,
            self.cursor_col,
        );
        self.cursor_row = row;
        self.cursor_col = col;
        self.copy_feedback = Some((message, now));
        self.jump_mode = false;
        self.jump_input = String::new();
    }

    /// The cell that an address such as "A5", "b10" or "AA100" names, as
    /// (column, row) counted from 0.
    pub fn parse_cell_address(addr: &str) -> (r: Option<(usize, usize)>)
        ensures
            r == cell_address(addr@),
    {
        crate::jump::parse_cell_address(addr)
    }

    /// The letters of the column `col`, counted from 0.
    pub fn col_to_letter(&self, col: usize) -> (out: String)
        ensures
            out@ == column_letters((col + 1) as nat),
    {
        crate::jump::col_to_letter(col)
    }

    /// The address of the cell under the cursor.
    pub fn current_cell_address(&self) -> (out: String)
        requires
            self.wf(),
        ensures
            out@ == address_text(self.cursor_row, self.cursor_col),
    {
        cell_address_text(self.cursor_row, self.cursor_col)
    }

    /// The text to put on the clipboard for the cell under the cursor: its raw
    /// text, or nothing where the sheet has no cell there. The caller puts it on
    /// the clipboard and reports with `cell_copy_done`.
    pub fn copy_current_cell(&mut self) -> (text: String)
        requires
            old(self).wf(),
        ensures
            final(self).wf(),
            final(self).kept_sheet(*old(self)),
            final(self)@ == old(self)@,
            text@ == (match old(self).sheet_data.cell_spec(
                old(self).cursor_row as int,
                old(self).cursor_col as int,
            ) {
                Some(c) => c.raw_text(),
                None => Seq::<char>::empty(),
            }),
    {
        let (cell, _formula) = self.sheet_data.get_cell(self.cursor_row, self.cursor_col);
        match cell {
            Some(c) => c.to_raw_string(),
            None => String::new(),
        }
    }

    /// Reports on the copy of the cell under the cursor, at the time `now`.
    pub fn cell_copy_done(&mut self, outcome: ClipboardOutcome, now: u64)
        requires
            old(self).wf(),
        ensures
            final(self).wf(),
            final(self).kept(*old(self)),
            final(self)@ == (SessionView {
                feedback: Some(
                    (
                        copy_report(
                            outcome,
                            cell_copied_text(old(self).cursor_row, old(self).cursor_col),
                        ),
                        now,
                    ),
                ),
                ..old(self)@
            }),
    {
        let mut done = String::new();
        push_str(&mut done, "Copied cell ");
        let address = self.current_cell_address();
        push_str(&mut done, address.as_str());
        self.copy_feedback = Some((copy_message(outcome, done), now));
    }

    /// The text to put on the clipboard for the row under the cursor: the raw
    /// texts of its cells with tabs between them, a cell that holds a tab, a line
    /// feed or a quotation mark in quotation marks. The caller puts it on the
    /// clipboard and reports with `row_copy_done`.
    pub fn copy_current_row(&mut self) -> (text: String)
        requires
            old(self).wf(),
        ensures
            final(self).wf(),
            final(self).kept_sheet(*old(self)),
            final(self)@ == old(self)@,
            text@ == row_text(
                old(self).sheet_data.row_spec(old(self).cursor_row as int),
                old(self).sheet_data.row_spec(old(self).cursor_row as int).len() as int,
            ),
    {
        let (rows, _formulas) = self.sheet_data.get_rows(self.cursor_row, 1);
        if rows.len() > 0 {
            row_to_text(&rows[0])
        } else {
            String::new()
        }
    }

    /// Reports on the copy of the row under the cursor, at the time `now`.
    pub fn row_copy_done(&mut self, outcome: ClipboardOutcome, now: u64)
        requires
            old(self).wf(),
        ensures
            final(self).wf(),
            final(self).kept(*old(self)),
            final(self)@ == (SessionView {
                feedback: Some(
                    (
                        copy_report(
                            outcome,
                            row_copied_text(
                                old(self).cursor_row,
                                old(self).sheet_data.width_spec(),
                            ),
                        ),
                        now,
                    ),
                ),
                ..old(self)@
            }),
    {
        let mut done = String::new();
        push_str(&mut done, "Copied row ");
        push_decimal(&mut done, (self.cursor_row + 1) as u64);
        push_str(&mut done, " (");
        push_decimal(&mut done, self.sheet_data.width() as u64);
        push_str(&mut done, " cells)");
        self.copy_feedback = Some((copy_message(outcome, done), now));
    }

    /// The message to show at the time `now`, if one is up: a message stays up
    /// for two seconds and is dropped after that.
    pub fn current_feedback(&mut self, now: u64) -> (out: Option<String>)
        requires
            old(self).wf(),
        ensures
            final(self).wf(),
            final(self).kept(*old(self)),
            match old(self)@.feedback {
                Some((message, since)) => if now < since || now - since < FEEDBACK_MILLIS {
                    final(self)@ == old(self)@ && crate::text::text_of(out) == Some(message)
                } else {
                    final(self)@ == (SessionView { feedback: None, ..old(self)@ }) && out is None
                },
                None => final(self)@ == old(self)@ && out is None,
            },
    {
        let shown: Option<String> = match &self.copy_feedback {
            Some((message, since)) => {
                if now < *since || now - *since < FEEDBACK_MILLIS {
                    Some(message.clone())
                } else {
                    None
                }
            },
            None => None,
        };
        match shown {
            Some(m) => Some(m),
            None => {
                self.copy_feedback = None;
                None
            },
        }
    }
}

/// What a key press asks for while no mode and no overlay is on.
#[derive(Debug, Clone, Copy, PartialEq, Eq, Structural)]
pub enum Command {
    Quit,
    Help,
    ThemeToggle,
    Search,
    NextMatch,
    PrevMatch,
    CopyCell,
    CopyRow,
    Jump,
    ShowCellDetail,
    NextSheet,
    PrevSheet,
    Up,
    Down,
    Left,
    Right,
    JumpToTop,
    JumpToBottom,
    JumpToRowStart,
    JumpToRowEnd,
    PageUp,
    PageDown,
    /// The escape key, where no binding claims it: it drops the matches of a
    /// search, or ends the session where there are none.
    Escape,
}

/// What the caller has to do after an event, since the session cannot: reach
/// the clipboard or load a sheet.
#[derive(Debug)]
pub enum Action {
    Nothing,
    /// Put the text on the clipboard and report with `cell_copy_done`.
    CopyCell(String),
    /// Put the text on the clipboard and report with `row_copy_done`.
    CopyRow(String),
    /// Load the sheet of this index and hand it to `load_current_sheet`.
    LoadSheet(usize),
}

/// An action with its text as a sequence of characters.
pub enum ActionView {
    Nothing,
    CopyCell(Seq<char>),
    CopyRow(Seq<char>),
    LoadSheet(usize),
}

impl View for Action {
    type V = ActionView;

    open spec fn view(&self) -> ActionView {
        match *self {
            Action::Nothing => ActionView::Nothing,
            Action::CopyCell(t) => ActionView::CopyCell(t@),
            Action::CopyRow(t) => ActionView::CopyRow(t@),
            Action::LoadSheet(i) => ActionView::LoadSheet(i),
        }
    }
}

/// The key and the modifier keys are those bound to the action: the same key,
/// and the same set of modifier keys, not a part of it.
pub open spec fn bound_to(config: Config, code: KeyCode, modifiers: KeyModifiers, action: Seq<char>) -> bool {
    config.binding(action) == Some((code, modifiers))
}

/// The command of a key press: that of the first action, in the fixed order of
/// this list, that the key is bound to. The back-tab key asks for the previous
/// sheet whatever is bound, and the escape key, where nothing is bound to it,
/// has a command of its own.
pub open spec fn command_for(config: Config, code: KeyCode, modifiers: KeyModifiers) -> Option<Command> {
    if bound_to(config, code, modifiers, "quit"@) {
        Some(Command::Quit)
    } else if bound_to(config, code, modifiers, "help"@) {
        Some(Command::Help)
    } else if bound_to(config, code, modifiers, "theme_toggle"@) {
        Some(Command::ThemeToggle)
    } else if bound_to(config, code, modifiers, "search"@) {
        Some(Command::Search)
    } else if bound_to(config, code, modifiers, "next_match"@) {
        Some(Command::NextMatch)
    } else if bound_to(config, code, modifiers, "prev_match"@) {
        Some(Command::PrevMatch)
    } else if bound_to(config, code, modifiers, "copy_cell"@) {
        Some(Command::CopyCell)
    } else if bound_to(config, code, modifiers, "copy_row"@) {
        Some(Command::CopyRow)
    } else if bound_to(config, code, modifiers, "jump"@) {
        Some(Command::Jump)
    } else if bound_to(config, code, modifiers, "show_cell_detail"@) {
        Some(Command::ShowCellDetail)
    } else if bound_to(config, code, modifiers, "next_sheet"@) {
        Some(Command::NextSheet)
    } else if bound_to(config, code, modifiers, "prev_sheet"@) || code == KeyCode::BackTab {
        Some(Command::PrevSheet)
    } else if bound_to(config, code, modifiers, "up"@) {
        Some(Command::Up)
    } else if bound_to(config, code, modifiers, "down"@) {
        Some(Command::Down)
    } else if bound_to(config, code, modifiers, "left"@) {
        Some(Command::Left)
    } else if bound_to(config, code, modifiers, "right"@) {
        Some(Command::Right)
    } else if bound_to(config, code, modifiers, "jump_to_top"@) {
        Some(Command::JumpToTop)
    } else if bound_to(config, code, modifiers, "jump_to_bottom"@) {
        Some(Command::JumpToBottom)
    } else if bound_to(config, code, modifiers, "jump_to_row_start"@) {
        Some(Command::JumpToRowStart)
    } else if bound_to(config, code, modifiers, "jump_to_row_end"@) {
        Some(Command::JumpToRowEnd)
    } else if bound_to(config, code, modifiers, "page_up"@) {
        Some(Command::PageUp)
    } else if bound_to(config, code, modifiers, "page_down"@) {
        Some(Command::PageDown)
    } else if code == KeyCode::Esc {
        Some(Command::Escape)
    } else {
        None
    }
}

/// The text without its last character.
pub open spec fn without_last(s: Seq<char>) -> Seq<char> {
    if s.len() > 0 {
        s.drop_last()
    } else {
        s
    }
}

/// The text without its last character.
pub fn drop_last_char(s: &str) -> (out: String)
    ensures
        out@ == without_last(s@),
{
    let v = chars_of(s);
    let mut out = String::new();
    if v.len() > 0 {
        push_chars(&mut out, &v, 0, v.len() - 1);
    }
    out
}

impl TuiState {
    /// The session after a search for the query `query`.
    pub open spec fn with_search(self, query: Seq<char>) -> SessionView {
        self@.with_query(query).searched(found(self.sheet_data, query))
    }

    /// The session after a key press in the search mode: a character is added
    /// to the query and the backspace key takes the last one away, each with a
    /// new search; the enter key leaves the mode and keeps the matches; the
    /// escape key leaves the mode and drops the search.
    pub open spec fn after_search_key(self, code: KeyCode) -> SessionView {
        match code {
            KeyCode::Char(c) => self.with_search(self@.search_query.push(c)),
            KeyCode::Backspace => self.with_search(without_last(self@.search_query)),
            KeyCode::Enter => SessionView { search_mode: false, ..self@ },
            KeyCode::Esc => (SessionView { search_mode: false, ..self@ }).search_cleared(),
            _ => self@,
        }
    }

    /// The session after a key press in the jump mode at the time `now`: a
    /// character is added to the input and the backspace key takes the last one
    /// away; the enter key confirms the input; the escape key leaves the mode and
    /// drops the input.
    pub open spec fn after_jump_key(self, code: KeyCode, now: u64) -> SessionView {
        match code {
            KeyCode::Char(c) => SessionView { jump_input: self@.jump_input.push(c), ..self@ },
            KeyCode::Backspace => SessionView {
                jump_input: without_last(self@.jump_input),
                ..self@
            },
            KeyCode::Enter => self@.jumped(
                self.sheet_data.height_spec(),
                self.sheet_data.width_spec(),
                now,
            ),
            KeyCode::Esc => SessionView { jump_mode: false, jump_input: Seq::empty(), ..self@ },
            _ => self@,
        }
    }

    /// The session after a command, and what is left for the caller to do.
    pub open spec fn after_command(self, command: Command) -> (SessionView, ActionView) {
        let v = self@;
        let height = self.sheet_data.height_spec();
        let width = self.sheet_data.width_spec();
        let sheets = self.sheet_names@.len();
        match command {
            Command::Quit => (SessionView { should_quit: true, ..v }, ActionView::Nothing),
            Command::Help => (SessionView { show_help: true, ..v }, ActionView::Nothing),
            Command::ThemeToggle => (
                SessionView { theme: Theme::all_spec()[(v.theme.position() + 1) % 6], ..v },
                ActionView::Nothing,
            ),
            Command::Search => (
                (SessionView { search_mode: true, ..v }).search_cleared(),
                ActionView::Nothing,
            ),
            Command::NextMatch => (v.next_match(), ActionView::Nothing),
            Command::PrevMatch => (v.prev_match(), ActionView::Nothing),
            Command::CopyCell => (
                v,
                ActionView::CopyCell(
                    match self.sheet_data.cell_spec(v.cursor_row as int, v.cursor_col as int) {
                        Some(c) => c.raw_text(),
                        None => Seq::<char>::empty(),
                    },
                ),
            ),
            Command::CopyRow => (
                v,
                ActionView::CopyRow(
                    row_text(
                        self.sheet_data.row_spec(v.cursor_row as int),
                        self.sheet_data.row_spec(v.cursor_row as int).len() as int,
                    ),
                ),
            ),
            Command::Jump => (
                SessionView { jump_mode: true, jump_input: Seq::empty(), ..v },
                ActionView::Nothing,
            ),
            Command::ShowCellDetail => (
                SessionView { show_cell_detail: true, ..v },
                ActionView::Nothing,
            ),
            Command::NextSheet => if sheets <= 1 {
                (v, ActionView::Nothing)
            } else {
                (
                    SessionView {
                        sheet_index: ((v.sheet_index + 1) % (sheets as int)) as usize,
                        ..v
                    },
                    ActionView::LoadSheet(((v.sheet_index + 1) % (sheets as int)) as usize),
                )
            },
            Command::PrevSheet => if sheets <= 1 {
                (v, ActionView::Nothing)
            } else {
                (
                    SessionView {
                        sheet_index: if v.sheet_index == 0 {
                            (sheets - 1) as usize
                        } else {
                            (v.sheet_index - 1) as usize
                        },
                        ..v
                    },
                    ActionView::LoadSheet(
                        if v.sheet_index == 0 {
                            (sheets - 1) as usize
                        } else {
                            (v.sheet_index - 1) as usize
                        },
                    ),
                )
            },
            Command::Up => (
                SessionView {
                    cursor_row: step_back(v.cursor_row),
                    scroll_offset: if v.cursor_row > 0 && step_back(v.cursor_row)
                        < v.scroll_offset {
                        step_back(v.cursor_row)
                    } else {
                        v.scroll_offset
                    },
                    ..v
                },
                ActionView::Nothing,
            ),
            Command::Down => (
                SessionView { cursor_row: step_on(v.cursor_row, height), ..v },
                ActionView::Nothing,
            ),
            Command::Left => (
                SessionView { cursor_col: step_back(v.cursor_col), ..v },
                ActionView::Nothing,
            ),
            Command::Right => (
                SessionView { cursor_col: step_on(v.cursor_col, width), ..v },
                ActionView::Nothing,
            ),
            Command::JumpToTop => (SessionView { cursor_row: 0, ..v }, ActionView::Nothing),
            Command::JumpToBottom => (
                SessionView { cursor_row: last_index(height), ..v },
                ActionView::Nothing,
            ),
            Command::JumpToRowStart => (SessionView { cursor_col: 0, ..v }, ActionView::Nothing),
            Command::JumpToRowEnd => (
                SessionView { cursor_col: last_index(width), ..v },
                ActionView::Nothing,
            ),
            Command::PageUp => (
                SessionView { cursor_row: page_back(v.cursor_row, PAGE_STEP), ..v },
                ActionView::Nothing,
            ),
            Command::PageDown => (
                SessionView { cursor_row: page_on(v.cursor_row, PAGE_STEP, height), ..v },
                ActionView::Nothing,
            ),
            Command::Escape => if v.search_matches.len() > 0 {
                (v.search_cleared(), ActionView::Nothing)
            } else {
                (SessionView { should_quit: true, ..v }, ActionView::Nothing)
            },
        }
    }

    /// The session after an event at the time `now`, and what is left for the
    /// caller to do. Only the press of a key counts. An overlay that is up
    /// swallows the key and goes; else the key goes to the search mode or the
    /// jump mode, if one is on; else to the command that it is bound to.
    pub open spec fn stepped(self, event: Event, now: u64) -> (SessionView, ActionView) {
        let v = self@;
        match event {
            Event::Key(key) => if key.kind != KeyEventKind::Press {
                (v, ActionView::Nothing)
            } else if v.show_help {
                (SessionView { show_help: false, ..v }, ActionView::Nothing)
            } else if v.show_cell_detail {
                (SessionView { show_cell_detail: false, ..v }, ActionView::Nothing)
            } else if v.search_mode {
                (self.after_search_key(key.code), ActionView::Nothing)
            } else if v.jump_mode {
                (self.after_jump_key(key.code, now), ActionView::Nothing)
            } else {
                match command_for(self.config, key.code, key.modifiers) {
                    Some(command) => self.after_command(command),
                    None => (v, ActionView::Nothing),
                }
            },
            Event::Other => (v, ActionView::Nothing),
        }
    }

    /// Whether a key with its modifier keys is what is bound to the action.
    pub fn key_matches(&self, code: KeyCode, modifiers: KeyModifiers, action: &str) -> (r: bool)
        ensures
            r == bound_to(self.config, code, modifiers, action@),
    {
        match self.config.get_keybinding(action) {
            Some((expected_code, expected_mods)) => code == expected_code && modifiers
                == expected_mods,
            None => false,
        }
    }

    /// The command of a key press.
    pub fn resolve_command(&self, code: KeyCode, modifiers: KeyModifiers) -> (r: Option<Command>)
        ensures
            r == command_for(self.config, code, modifiers),
    {
        if self.key_matches(code, modifiers, "quit") {
            Some(Command::Quit)
        } else if self.key_matches(code, modifiers, "help") {
            Some(Command::Help)
        } else if self.key_matches(code, modifiers, "theme_toggle") {
            Some(Command::ThemeToggle)
        } else if self.key_matches(code, modifiers, "search") {
            Some(Command::Search)
        } else if self.key_matches(code, modifiers, "next_match") {
            Some(Command::NextMatch)
        } else if self.key_matches(code, modifiers, "prev_match") {
            Some(Command::PrevMatch)
        } else if self.key_matches(code, modifiers, "copy_cell") {
            Some(Command::CopyCell)
        } else if self.key_matches(code, modifiers, "copy_row") {
            Some(Command::CopyRow)
        } else if self.key_matches(code, modifiers, "jump") {
            Some(Command::Jump)
        } else if self.key_matches(code, modifiers, "show_cell_detail") {
            Some(Command::ShowCellDetail)
        } else if self.key_matches(code, modifiers, "next_sheet") {
            Some(Command::NextSheet)
        } else if self.key_matches(code, modifiers, "prev_sheet") || code == KeyCode::BackTab {
            Some(Command::PrevSheet)
        } else if self.key_matches(code, modifiers, "up") {
            Some(Command::Up)
        } else if self.key_matches(code, modifiers, "down") {
            Some(Command::Down)
        } else if self.key_matches(code, modifiers, "left") {
            Some(Command::Left)
        } else if self.key_matches(code, modifiers, "right") {
            Some(Command::Right)
        } else if self.key_matches(code, modifiers, "jump_to_top") {
            Some(Command::JumpToTop)
        } else if self.key_matches(code, modifiers, "jump_to_bottom") {
            Some(Command::JumpToBottom)
        } else if self.key_matches(code, modifiers, "jump_to_row_start") {
            Some(Command::JumpToRowStart)
        } else if self.key_matches(code, modifiers, "jump_to_row_end") {
            Some(Command::JumpToRowEnd)
        } else if self.key_matches(code, modifiers, "page_up") {
            Some(Command::PageUp)
        } else if self.key_matches(code, modifiers, "page_down") {
            Some(Command::PageDown)
        } else if code == KeyCode::Esc {
            Some(Command::Escape)
        } else {
            None
        }
    }

    /// Takes `query` for the query and searches for it.
    pub fn search_for(&mut self, query: String)
        requires
            old(self).wf(),
        ensures
            final(self).wf(),
            final(self).kept_sheet(*old(self)),
            final(self)@ == old(self).with_search(query@),
    {
        self.search_query = query;
        self.search_matches = Vec::new();
        self.current_match_index = None;
        self.perform_search();
    }

    /// A key press in the search mode.
    pub fn handle_search_key(&mut self, code: KeyCode)
        requires
            old(self).wf(),
        ensures
            final(self).wf(),
            final(self).kept_sheet(*old(self)),
            final(self)@ == old(self).after_search_key(code),
    {
        match code {
            KeyCode::Char(c) => {
                let mut query = self.search_query.clone();
                query.push(c);
                self.search_for(query);
            },
            KeyCode::Backspace => {
                let query = drop_last_char(self.search_query.as_str());
                self.search_for(query);
            },
            KeyCode::Enter => {
                self.search_mode = false;
            },
            KeyCode::Esc => {
                self.search_mode = false;
                self.clear_search();
            },
            _ => {},
        }
    }

    /// A key press in the jump mode, at the time `now`.
    pub fn handle_jump_key(&mut self, code: KeyCode, now: u64)
        requires
            old(self).wf(),
        ensures
            final(self).wf(),
            final(self).kept(*old(self)),
            final(self)@ == old(self).after_jump_key(code, now),
    {
        match code {
            KeyCode::Char(c) => {
                self.jump_input.push(c);
            },
            KeyCode::Backspace => {
                self.jump_input = drop_last_char(self.jump_input.as_str());
            },
            KeyCode::Enter => {
                self.perform_jump(now);
            },
            KeyCode::Esc => {
                self.jump_mode = false;
                self.jump_input = String::new();
            },
            _ => {},
        }
    }

    /// Carries out a command; what the session cannot do itself is left to the
    /// caller as an action.
    pub fn apply_command(&mut self, command: Command) -> (action: Action)
        requires
            old(self).wf(),
            !old(self).search_mode,
            !old(self).jump_mode,
        ensures
            final(self).wf(),
            final(self).kept_sheet(*old(self)),
            (final(self)@, action@) == old(self).after_command(command),
    {
        match command {
            Command::Quit => {
                self.should_quit = true;
                Action::Nothing
            },
            Command::Help => {
                self.show_help = true;
                Action::Nothing
            },
            Command::ThemeToggle => {
                self.current_theme = self.current_theme.next();
                Action::Nothing
            },
            Command::Search => {
                self.search_mode = true;
                self.clear_search();
                Action::Nothing
            },
            Command::NextMatch => {
                self.jump_to_next_match();
                Action::Nothing
            },
            Command::PrevMatch => {
                self.jump_to_prev_match();
                Action::Nothing
            },
            Command::CopyCell => Action::CopyCell(self.copy_current_cell()),
            Command::CopyRow => Action::CopyRow(self.copy_current_row()),
            Command::Jump => {
                self.enter_jump_mode();
                Action::Nothing
            },
            Command::ShowCellDetail => {
                self.show_cell_detail = true;
                Action::Nothing
            },
            Command::NextSheet => match self.switch_to_next_sheet() {
                Some(index) => Action::LoadSheet(index),
                None => Action::Nothing,
            },
            Command::PrevSheet => match self.switch_to_prev_sheet() {
                Some(index) => Action::LoadSheet(index),
                None => Action::Nothing,
            },
            Command::Up => {
                self.move_up();
                Action::Nothing
            },
            Command::Down => {
                self.move_down();
                Action::Nothing
            },
            Command::Left => {
                self.move_left();
                Action::Nothing
            },
            Command::Right => {
                self.move_right();
                Action::Nothing
            },
            Command::JumpToTop => {
                self.move_to_top();
                Action::Nothing
            },
            Command::JumpToBottom => {
                self.move_to_bottom();
                Action::Nothing
            },
            Command::JumpToRowStart => {
                self.move_to_start_of_row();
                Action::Nothing
            },
            Command::JumpToRowEnd => {
                self.move_to_end_of_row();
                Action::Nothing
            },
            Command::PageUp => {
                self.page_up(PAGE_STEP);
                Action::Nothing
            },
            Command::PageDown => {
                self.page_down(PAGE_STEP);
                Action::Nothing
            },
            Command::Escape => {
                if self.search_matches.len() > 0 {
                    self.clear_search();
                } else {
                    self.should_quit = true;
                }
                Action::Nothing
            },
        }
    }

    /// Takes one input event at the time `now`, changes the session by it, and
    /// says what is left for the caller to do.
    pub fn handle_event(&mut self, event: Event, now: u64) -> (action: Action)
        requires
            old(self).wf(),
        ensures
            final(self).wf(),
            final(self).kept_sheet(*old(self)),
            (final(self)@, action@) == old(self).stepped(event, now),
    {
        match event {
            Event::Key(key) => {
                match key.kind {
                    KeyEventKind::Press => {},
                    _ => {
                        return Action::Nothing;
                    },
                }
                if self.show_help {
                    self.show_help = false;
                    return Action::Nothing;
                }
                if self.show_cell_detail {
                    self.show_cell_detail = false;
                    return Action::Nothing;
                }
                if self.search_mode {
                    self.handle_search_key(key.code);
                    return Action::Nothing;
                }
                if self.jump_mode {
                    self.handle_jump_key(key.code, now);
                    return Action::Nothing;
                }
                match self.resolve_command(key.code, key.modifiers) {
                    Some(command) => self.apply_command(command),
                    None => Action::Nothing,
                }
            },
            Event::Other => Action::Nothing,
        }
    }
}

} // verus!

//! The colors of the themes.

use vstd::prelude::*;
use crate::cell::CellValue;
use crate::tui::Theme;

verus! {

/// A color of the terminal: one of its named colors, or one mixed of red,
/// green and blue.
#[derive(Debug, Clone, Copy, PartialEq, Eq, Structural)]
pub enum Color {
    Black,
    Red,
    Green,
    Yellow,
    Blue,
    Magenta,
    Cyan,
    White,
    DarkGray,
    LightYellow,
    Rgb(u8, u8, u8),
}

/// The colors of a theme.
#[derive(Debug, Clone, Copy, PartialEq, Eq, Structural)]
pub struct ColorScheme {
    pub string_fg: Color,
    pub number_fg: Color,
    pub bool_fg: Color,
    pub datetime_fg: Color,
    pub error_fg: Color,
    pub empty_fg: Color,
    pub header_fg: Color,
    pub header_bg: Option<Color>,
    pub current_cell_fg: Color,
    pub current_cell_bg: Color,
    pub current_row_bg: Color,
    pub current_col_fg: Color,
    pub alternating_row_bg: Option<Color>,
    pub search_match_fg: Color,
    pub search_match_bg: Color,
    pub current_search_fg: Color,
    pub current_search_bg: Color,
    pub border_fg: Color,
    pub status_bar_fg: Color,
    pub status_bar_bg: Option<Color>,
}

/// The colors of each theme.
pub open spec fn palette(theme: Theme) -> ColorScheme {
    match theme {
        Theme::Default => ColorScheme {
            string_fg: Color::White,
            number_fg: Color::Cyan,
            bool_fg: Color::Magenta,
            datetime_fg: Color::Green,
            error_fg: Color::Red,
            empty_fg: Color::DarkGray,
            header_fg: Color::Yellow,
            header_bg: None,
            current_cell_fg: Color::White,
            current_cell_bg: Color::Blue,
            current_row_bg: Color::DarkGray,
            current_col_fg: Color::Cyan,
            alternating_row_bg: Some(Color::Rgb(25, 25, 28)),
            search_match_fg: Color::Black,
            search_match_bg: Color::LightYellow,
            current_search_fg: Color::Black,
            current_search_bg: Color::Yellow,
            border_fg: Color::White,
            status_bar_fg: Color::White,
            status_bar_bg: None,
        },
        Theme::Dracula => ColorScheme {
            string_fg: Color::Rgb(248, 248, 242),
            number_fg: Color::Rgb(189, 147, 249),
            bool_fg: Color::Rgb(255, 121, 198),
            datetime_fg: Color::Rgb(80, 250, 123),
            error_fg: Color::Rgb(255, 85, 85),
            empty_fg: Color::Rgb(98, 114, 164),
            header_fg: Color::Rgb(139, 233, 253),
            header_bg: Some(Color::Rgb(68, 71, 90)),
            current_cell_fg: Color::Rgb(248, 248, 242),
            current_cell_bg: Color::Rgb(98, 114, 164),
            current_row_bg: Color::Rgb(68, 71, 90),
            current_col_fg: Color::Rgb(139, 233, 253),
            alternating_row_bg: Some(Color::Rgb(50, 52, 65)),
            search_match_fg: Color::Rgb(40, 42, 54),
            search_match_bg: Color::Rgb(241, 250, 140),
            current_search_fg: Color::Rgb(40, 42, 54),
            current_search_bg: Color::Rgb(255, 184, 108),
            border_fg: Color::Rgb(98, 114, 164),
            status_bar_fg: Color::Rgb(248, 248, 242),
            status_bar_bg: Some(Color::Rgb(68, 71, 90)),
        },
        Theme::SolarizedDark => ColorScheme {
            string_fg: Color::Rgb(131, 148, 150),
            number_fg: Color::Rgb(38, 139, 210),
            bool_fg: Color::Rgb(211, 54, 130),
            datetime_fg: Color::Rgb(133, 153, 0),
            error_fg: Color::Rgb(220, 50, 47),
            empty_fg: Color::Rgb(88, 110, 117),
            header_fg: Color::Rgb(181, 137, 0),
            header_bg: Some(Color::Rgb(7, 54, 66)),
            current_cell_fg: Color::Rgb(253, 246, 227),
            current_cell_bg: Color::Rgb(88, 110, 117),
            current_row_bg: Color::Rgb(7, 54, 66),
            current_col_fg: Color::Rgb(42, 161, 152),
            alternating_row_bg: Some(Color::Rgb(0, 43, 54)),
            search_match_fg: Color::Rgb(0, 43, 54),
            search_match_bg: Color::Rgb(181, 137, 0),
            current_search_fg: Color::Rgb(0, 43, 54),
            current_search_bg: Color::Rgb(203, 75, 22),
            border_fg: Color::Rgb(88, 110, 117),
            status_bar_fg: Color::Rgb(131, 148, 150),
            status_bar_bg: Some(Color::Rgb(7, 54, 66)),
        },
        Theme::SolarizedLight => ColorScheme {
            string_fg: Color::Rgb(101, 123, 131),
            number_fg: Color::Rgb(38, 139, 210),
            bool_fg: Color::Rgb(211, 54, 130),
            datetime_fg: Color::Rgb(133, 153, 0),
            error_fg: Color::Rgb(220, 50, 47),
            empty_fg: Color::Rgb(147, 161, 161),
            header_fg: Color::Rgb(181, 137, 0),
            header_bg: Some(Color::Rgb(238, 232, 213)),
            current_cell_fg: Color::Rgb(0, 43, 54),
            current_cell_bg: Color::Rgb(147, 161, 161),
            current_row_bg: Color::Rgb(238, 232, 213),
            current_col_fg: Color::Rgb(42, 161, 152),
            alternating_row_bg: Some(Color::Rgb(253, 246, 227)),
            search_match_fg: Color::Rgb(0, 43, 54),
            search_match_bg: Color::Rgb(181, 137, 0),
            current_search_fg: Color::Rgb(253, 246, 227),
            current_search_bg: Color::Rgb(203, 75, 22),
            border_fg: Color::Rgb(147, 161, 161),
            status_bar_fg: Color::Rgb(101, 123, 131),
            status_bar_bg: Some(Color::Rgb(238, 232, 213)),
        },
        Theme::GitHubDark => ColorScheme {
            string_fg: Color::Rgb(201, 209, 217),
            number_fg: Color::Rgb(121, 192, 255),
            bool_fg: Color::Rgb(255, 125, 163),
            datetime_fg: Color::Rgb(127, 219, 202),
            error_fg: Color::Rgb(248, 81, 73),
            empty_fg: Color::Rgb(110, 118, 129),
            header_fg: Color::Rgb(255, 199, 119),
            header_bg: Some(Color::Rgb(33, 38, 45)),
            current_cell_fg: Color::Rgb(201, 209, 217),
            current_cell_bg: Color::Rgb(56, 139, 253),
            current_row_bg: Color::Rgb(33, 38, 45),
            current_col_fg: Color::Rgb(121, 192, 255),
            alternating_row_bg: Some(Color::Rgb(22, 27, 34)),
            search_match_fg: Color::Rgb(13, 17, 23),
            search_match_bg: Color::Rgb(187, 128, 9),
            current_search_fg: Color::Rgb(13, 17, 23),
            current_search_bg: Color::Rgb(242, 130, 33),
            border_fg: Color::Rgb(48, 54, 61),
            status_bar_fg: Color::Rgb(201, 209, 217),
            status_bar_bg: Some(Color::Rgb(33, 38, 45)),
        },
        Theme::Nord => ColorScheme {
            string_fg: Color::Rgb(216, 222, 233),
            number_fg: Color::Rgb(136, 192, 208),
            bool_fg: Color::Rgb(180, 142, 173),
            datetime_fg: Color::Rgb(163, 190, 140),
            error_fg: Color::Rgb(191, 97, 106),
            empty_fg: Color::Rgb(76, 86, 106),
            header_fg: Color::Rgb(235, 203, 139),
            header_bg: Some(Color::Rgb(59, 66, 82)),
            current_cell_fg: Color::Rgb(236, 239, 244),
            current_cell_bg: Color::Rgb(94, 129, 172),
            current_row_bg: Color::Rgb(59, 66, 82),
            current_col_fg: Color::Rgb(136, 192, 208),
            alternating_row_bg: Some(Color::Rgb(46, 52, 64)),
            search_match_fg: Color::Rgb(46, 52, 64),
            search_match_bg: Color::Rgb(235, 203, 139),
            current_search_fg: Color::Rgb(46, 52, 64),
            current_search_bg: Color::Rgb(208, 135, 112),
            border_fg: Color::Rgb(76, 86, 106),
            status_bar_fg: Color::Rgb(216, 222, 233),
            status_bar_bg: Some(Color::Rgb(59, 66, 82)),
        },
    }
}

impl ColorScheme {
    /// The default theme.
    pub fn default_theme() -> (r: Self)
        ensures
            r == palette(Theme::Default),
    {
        ColorScheme {
            string_fg: Color::White,
            number_fg: Color::Cyan,
            bool_fg: Color::Magenta,
            datetime_fg: Color::Green,
            error_fg: Color::Red,
            empty_fg: Color::DarkGray,
            header_fg: Color::Yellow,
            header_bg: None,
            current_cell_fg: Color::White,
            current_cell_bg: Color::Blue,
            current_row_bg: Color::DarkGray,
            current_col_fg: Color::Cyan,
            alternating_row_bg: Some(Color::Rgb(25, 25, 28)),
            search_match_fg: Color::Black,
            search_match_bg: Color::LightYellow,
            current_search_fg: Color::Black,
            current_search_bg: Color::Yellow,
            border_fg: Color::White,
            status_bar_fg: Color::White,
            status_bar_bg: None,
        }
    }

    /// The Dracula theme.
    pub fn dracula() -> (r: Self)
        ensures
            r == palette(Theme::Dracula),
    {
        ColorScheme {
            string_fg: Color::Rgb(248, 248, 242),
            number_fg: Color::Rgb(189, 147, 249),
            bool_fg: Color::Rgb(255, 121, 198),
            datetime_fg: Color::Rgb(80, 250, 123),
            error_fg: Color::Rgb(255, 85, 85),
            empty_fg: Color::Rgb(98, 114, 164),
            header_fg: Color::Rgb(139, 233, 253),
            header_bg: Some(Color::Rgb(68, 71, 90)),
            current_cell_fg: Color::Rgb(248, 248, 242),
            current_cell_bg: Color::Rgb(98, 114, 164),
            current_row_bg: Color::Rgb(68, 71, 90),
            current_col_fg: Color::Rgb(139, 233, 253),
            alternating_row_bg: Some(Color::Rgb(50, 52, 65)),
            search_match_fg: Color::Rgb(40, 42, 54),
            search_match_bg: Color::Rgb(241, 250, 140),
            current_search_fg: Color::Rgb(40, 42, 54),
            current_search_bg: Color::Rgb(255, 184, 108),
            border_fg: Color::Rgb(98, 114, 164),
            status_bar_fg: Color::Rgb(248, 248, 242),
            status_bar_bg: Some(Color::Rgb(68, 71, 90)),
        }
    }

    /// The Solarized Dark theme.
    pub fn solarized_dark() -> (r: Self)
        ensures
            r == palette(Theme::SolarizedDark),
    {
        ColorScheme {
            string_fg: Color::Rgb(131, 148, 150),
            number_fg: Color::Rgb(38, 139, 210),
            bool_fg: Color::Rgb(211, 54, 130),
            datetime_fg: Color::Rgb(133, 153, 0),
            error_fg: Color::Rgb(220, 50, 47),
            empty_fg: Color::Rgb(88, 110, 117),
            header_fg: Color::Rgb(181, 137, 0),
            header_bg: Some(Color::Rgb(7, 54, 66)),
            current_cell_fg: Color::Rgb(253, 246, 227),
            current_cell_bg: Color::Rgb(88, 110, 117),
            current_row_bg: Color::Rgb(7, 54, 66),
            current_col_fg: Color::Rgb(42, 161, 152),
            alternating_row_bg: Some(Color::Rgb(0, 43, 54)),
            search_match_fg: Color::Rgb(0, 43, 54),
            search_match_bg: Color::Rgb(181, 137, 0),
            current_search_fg: Color::Rgb(0, 43, 54),
            current_search_bg: Color::Rgb(203, 75, 22),
            border_fg: Color::Rgb(88, 110, 117),
            status_bar_fg: Color::Rgb(131, 148, 150),
            status_bar_bg: Some(Color::Rgb(7, 54, 66)),
        }
    }

    /// The Solarized Light theme.
    pub fn solarized_light() -> (r: Self)
        ensures
            r == palette(Theme::SolarizedLight),
    {
        ColorScheme {
            string_fg: Color::Rgb(101, 123, 131),
            number_fg: Color::Rgb(38, 139, 210),
            bool_fg: Color::Rgb(211, 54, 130),
            datetime_fg: Color::Rgb(133, 153, 0),
            error_fg: Color::Rgb(220, 50, 47),
            empty_fg: Color::Rgb(147, 161, 161),
            header_fg: Color::Rgb(181, 137, 0),
            header_bg: Some(Color::Rgb(238, 232, 213)),
            current_cell_fg: Color::Rgb(0, 43, 54),
            current_cell_bg: Color::Rgb(147, 161, 161),
            current_row_bg: Color::Rgb(238, 232, 213),
            current_col_fg: Color::Rgb(42, 161, 152),
            alternating_row_bg: Some(Color::Rgb(253, 246, 227)),
            search_match_fg: Color::Rgb(0, 43, 54),
            search_match_bg: Color::Rgb(181, 137, 0),
            current_search_fg: Color::Rgb(253, 246, 227),
            current_search_bg: Color::Rgb(203, 75, 22),
            border_fg: Color::Rgb(147, 161, 161),
            status_bar_fg: Color::Rgb(101, 123, 131),
            status_bar_bg: Some(Color::Rgb(238, 232, 213)),
        }
    }

    /// The GitHub Dark theme.
    pub fn github_dark() -> (r: Self)
        ensures
            r == palette(Theme::GitHubDark),
    {
        ColorScheme {
            string_fg: Color::Rgb(201, 209, 217),
            number_fg: Color::Rgb(121, 192, 255),
            bool_fg: Color::Rgb(255, 125, 163),
            datetime_fg: Color::Rgb(127, 219, 202),
            error_fg: Color::Rgb(248, 81, 73),
            empty_fg: Color::Rgb(110, 118, 129),
            header_fg: Color::Rgb(255, 199, 119),
            header_bg: Some(Color::Rgb(33, 38, 45)),
            current_cell_fg: Color::Rgb(201, 209, 217),
            current_cell_bg: Color::Rgb(56, 139, 253),
            current_row_bg: Color::Rgb(33, 38, 45),
            current_col_fg: Color::Rgb(121, 192, 255),
            alternating_row_bg: Some(Color::Rgb(22, 27, 34)),
            search_match_fg: Color::Rgb(13, 17, 23),
            search_match_bg: Color::Rgb(187, 128, 9),
            current_search_fg: Color::Rgb(13, 17, 23),
            current_search_bg: Color::Rgb(242, 130, 33),
            border_fg: Color::Rgb(48, 54, 61),
            status_bar_fg: Color::Rgb(201, 209, 217),
            status_bar_bg: Some(Color::Rgb(33, 38, 45)),
        }
    }

    /// The Nord theme.
    pub fn nord() -> (r: Self)
        ensures
            r == palette(Theme::Nord),
    {
        ColorScheme {
            string_fg: Color::Rgb(216, 222, 233),
            number_fg: Color::Rgb(136, 192, 208),
            bool_fg: Color::Rgb(180, 142, 173),
            datetime_fg: Color::Rgb(163, 190, 140),
            error_fg: Color::Rgb(191, 97, 106),
            empty_fg: Color::Rgb(76, 86, 106),
            header_fg: Color::Rgb(235, 203, 139),
            header_bg: Some(Color::Rgb(59, 66, 82)),
            current_cell_fg: Color::Rgb(236, 239, 244),
            current_cell_bg: Color::Rgb(94, 129, 172),
            current_row_bg: Color::Rgb(59, 66, 82),
            current_col_fg: Color::Rgb(136, 192, 208),
            alternating_row_bg: Some(Color::Rgb(46, 52, 64)),
            search_match_fg: Color::Rgb(46, 52, 64),
            search_match_bg: Color::Rgb(235, 203, 139),
            current_search_fg: Color::Rgb(46, 52, 64),
            current_search_bg: Color::Rgb(208, 135, 112),
            border_fg: Color::Rgb(76, 86, 106),
            status_bar_fg: Color::Rgb(216, 222, 233),
            status_bar_bg: Some(Color::Rgb(59, 66, 82)),
        }
    }

    /// The color of the text of a cell, by the kind of its value.
    pub fn cell_color(&self, cell: &CellValue) -> (r: Color)
        ensures
            r == (match *cell {
                CellValue::Empty => self.empty_fg,
                CellValue::String(_) => self.string_fg,
                CellValue::Int(_) => self.number_fg,
                CellValue::Float(_) => self.number_fg,
                CellValue::Bool(_) => self.bool_fg,
                CellValue::Error(_) => self.error_fg,
                CellValue::DateTime(_) => self.datetime_fg,
            }),
    {
        match cell {
            CellValue::Empty => self.empty_fg,
            CellValue::String(_) => self.string_fg,
            CellValue::Int(_) => self.number_fg,
            CellValue::Float(_) => self.number_fg,
            CellValue::Bool(_) => self.bool_fg,
            CellValue::Error(_) => self.error_fg,
            CellValue::DateTime(_) => self.datetime_fg,
        }
    }
}

impl Theme {
    /// The colors of the theme.
    pub fn colors(&self) -> (r: ColorScheme)
        ensures
            r == palette(*self),
    {
        match self {
            Theme::Default => ColorScheme::default_theme(),
            Theme::Dracula => ColorScheme::dracula(),
            Theme::SolarizedDark => ColorScheme::solarized_dark(),
            Theme::SolarizedLight => ColorScheme::solarized_light(),
            Theme::GitHubDark => ColorScheme::github_dark(),
            Theme::Nord => ColorScheme::nord(),
        }
    }
}

} // verus!

//! Navigation and data-windowing engine of a terminal spreadsheet viewer.

pub mod calendar;
pub mod cell;
pub mod colors;
pub mod config;
pub mod display;
pub mod jump;
pub mod keys;
pub mod render;
pub mod search;
pub mod selection;
pub mod source;
pub mod text;
pub mod tui;
pub mod workbook;

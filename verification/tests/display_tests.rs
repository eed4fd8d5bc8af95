use xleak::cell::{CellValue, NumberText};
use xleak::colors::{Color, ColorScheme};
use xleak::display::{
    display_table, display_table_data, export_csv, export_json, export_table_csv,
    export_table_json, export_table_text, export_text, format_cell_value, rows_to_show, CellStyle,
};
use xleak::selection::{
    choose_sheet, parse_export_format, unknown_format_message, ExportFormat, SheetError,
};
use xleak::tui::{ProgressInfo, Theme};
use xleak::workbook::{SheetData, TableData};

fn text(s: &str) -> CellValue {
    CellValue::String(s.to_string())
}

fn number(raw: &str, fixed: &str) -> CellValue {
    CellValue::Float(NumberText { raw: raw.to_string(), fixed: fixed.to_string() })
}

fn sample() -> SheetData {
    SheetData {
        headers: vec!["Name".to_string(), "Amount".to_string(), "Note".to_string()],
        rows: vec![
            vec![text("Alice"), CellValue::Int(1234567), text("say \"hi\"")],
            vec![text("Bob, Jr."), number("2.5", "2.50"), CellValue::Empty],
            vec![CellValue::Bool(true), CellValue::Error("DIV/0".to_string()), text("x")],
        ],
        formulas: vec![
            vec![None, Some("=SUM(B2:B9)".to_string()), None],
            vec![None, None, None],
        ],
        width: 3,
        height: 3,
    }
}

fn sample_table() -> TableData {
    let data = sample();
    TableData {
        name: "Sales".to_string(),
        sheet_name: "Q1".to_string(),
        headers: data.headers,
        rows: data.rows,
    }
}

#[test]
fn format_cell_value_cuts_long_texts() {
    assert_eq!(format_cell_value("short", 10, false), "short");
    assert_eq!(format_cell_value("exactly ten", 11, false), "exactly ten");
    assert_eq!(format_cell_value("a long text here", 10, false), "a long ...");
    assert_eq!(format_cell_value("a long text here", 10, true), "a long ...");
    assert_eq!(format_cell_value("abcdef", 3, false), "abc");
    assert_eq!(format_cell_value("abcdef", 0, false), "");
    assert_eq!(format_cell_value("äöüäöü", 5, false), "äö...");
}

#[test]
fn csv_quotes_fields_with_commas_and_quotes() {
    assert_eq!(
        export_csv(&sample()),
        "Name,Amount,Note\n\
         Alice,\"1,234,567\",\"say \"\"hi\"\"\"\n\
         \"Bob, Jr.\",2.50,\n\
         true,ERROR: DIV/0,x\n"
    );
    assert_eq!(
        export_table_csv(&sample_table()),
        "Name,Amount,Note\n\
         Alice,1234567,\"say \"\"hi\"\"\"\n\
         \"Bob, Jr.\",2.5,\n\
         true,#DIV/0,x\n"
    );
}

#[test]
fn plain_text_joins_with_tabs() {
    assert_eq!(
        export_text(&sample()),
        "Name\tAmount\tNote\nAlice\t1,234,567\tsay \"hi\"\nBob, Jr.\t2.50\t\ntrue\tERROR: DIV/0\tx\n"
    );
    assert_eq!(
        export_table_text(&sample_table()),
        "Name\tAmount\tNote\nAlice\t1234567\tsay \"hi\"\nBob, Jr.\t2.5\t\ntrue\t#DIV/0\tx\n"
    );
}

#[test]
fn json_of_a_sheet_and_a_table() {
    let body = "  \"headers\": [\n    \"Name\",\n    \"Amount\",\n    \"Note\"\n  ],\n  \"data\": [\n    \
                [\"Alice\", 1234567, \"say \\\"hi\\\"\"],\n    [\"Bob, Jr.\", 2.5, null],\n    \
                [true, \"ERROR: DIV/0\", \"x\"]\n  ]\n}\n";
    assert_eq!(
        export_json(&sample(), "Q1"),
        format!("{{\n  \"sheet\": \"Q1\",\n  \"rows\": 3,\n  \"columns\": 3,\n{body}")
    );
    assert_eq!(
        export_table_json(&sample_table()),
        format!(
            "{{\n  \"table\": \"Sales\",\n  \"sheet\": \"Q1\",\n  \"columns\": 3,\n  \"rows\": 3,\n{body}"
        )
    );
    let empty =
        SheetData { headers: vec![], rows: vec![], formulas: vec![], width: 0, height: 0 };
    assert_eq!(
        export_json(&empty, "E"),
        "{\n  \"sheet\": \"E\",\n  \"rows\": 0,\n  \"columns\": 0,\n  \"headers\": [\n  ],\n  \"data\": [\n  ]\n}\n"
    );
}

#[test]
fn rows_to_show_honours_the_limit() {
    assert_eq!(rows_to_show(0, 7), 7);
    assert_eq!(rows_to_show(5, 7), 5);
    assert_eq!(rows_to_show(7, 7), 7);
    assert_eq!(rows_to_show(50, 7), 7);
    assert_eq!(rows_to_show(3, 0), 0);
}

#[test]
fn printed_sheet_shows_values_or_formulas() {
    let data = sample();
    let shown = display_table(&data, "Q1", 2, 8, false, false);
    assert_eq!(shown.heading, "Sheet: Q1 (3 rows × 3 columns)");
    assert_eq!(shown.titles, vec!["Name", "Amount", "Note"]);
    assert_eq!(shown.cells, vec![vec!["Alice", "1,234...", "say \"hi\""], vec!["Bob, Jr.", "2.50", ""]]);
    assert_eq!(
        shown.styles,
        vec![
            vec![CellStyle::Plain, CellStyle::Number, CellStyle::Plain],
            vec![CellStyle::Plain, CellStyle::Number, CellStyle::Plain],
        ]
    );
    assert_eq!(shown.summary, "⚠️  Showing 2 of 3 rows (use -n 0 to show all)");
    let all = display_table(&data, "Q1", 0, 30, false, true);
    assert_eq!(all.cells[0], vec!["Alice", "=SUM(B2:B9)", "say \"hi\""]);
    assert_eq!(all.cells[2], vec!["true", "ERROR: DIV/0", "x"]);
    assert_eq!(all.styles[2], vec![CellStyle::Formula; 3]);
    assert_eq!(all.summary, "Total: 3 rows × 3 columns");
    let plain = display_table(&data, "Q1", 0, 30, false, false);
    assert_eq!(plain.styles[2], vec![CellStyle::Boolean, CellStyle::Error, CellStyle::Plain]);
}

#[test]
fn printed_table_shows_display_texts() {
    let shown = display_table_data(&sample_table(), 1);
    assert_eq!(shown.heading, "Table: Sales (from sheet: Q1)\n3 rows × 3 columns");
    assert_eq!(shown.cells, vec![vec!["Alice", "1,234,567", "say \"hi\""]]);
    assert_eq!(shown.summary, "⚠️  Showing 1 of 3 rows (use -n 0 to show all)");
}

#[test]
fn sheet_is_chosen_by_name_or_number() {
    let names = vec!["Data".to_string(), "2".to_string(), "Notes".to_string()];
    assert!(matches!(choose_sheet(&names, None), Ok(0)));
    assert!(matches!(choose_sheet(&names, Some("Notes")), Ok(2)));
    assert!(matches!(choose_sheet(&names, Some("2")), Ok(1)));
    assert!(matches!(choose_sheet(&names, Some("3")), Ok(2)));
    assert!(matches!(choose_sheet(&names, Some("1")), Ok(0)));
    match choose_sheet(&names, Some("4")) {
        Err(e) => assert_eq!(e.message(), "Sheet index 4 out of range (1-3)"),
        Ok(_) => panic!("no sheet has this number"),
    }
    match choose_sheet(&names, Some("0")) {
        Err(e) => {
            assert!(matches!(e, SheetError::IndexOutOfRange { index: 0, count: 3 }));
        }
        Ok(_) => panic!("no sheet has this number"),
    }
    match choose_sheet(&names, Some("Missing")) {
        Err(e) => {
            assert_eq!(e.message(), "Sheet 'Missing' not found. Available sheets: Data, 2, Notes")
        }
        Ok(_) => panic!("no sheet has this name"),
    }
    match choose_sheet(&Vec::new(), None) {
        Err(e) => assert_eq!(e.message(), "No sheets found in workbook"),
        Ok(_) => panic!("there is no sheet"),
    }
}

#[test]
fn export_formats_are_named() {
    assert_eq!(parse_export_format("csv"), Some(ExportFormat::Csv));
    assert_eq!(parse_export_format("json"), Some(ExportFormat::Json));
    assert_eq!(parse_export_format("text"), Some(ExportFormat::Text));
    assert_eq!(parse_export_format("CSV"), None);
    assert_eq!(
        unknown_format_message("xml"),
        "Unknown export format: xml. Use: csv, json, or text"
    );
}

#[test]
fn themes_follow_each_other_in_a_circle() {
    let all = Theme::all();
    assert_eq!(all.len(), 6);
    for (i, theme) in all.iter().enumerate() {
        assert_eq!(theme.next(), all[(i + 1) % all.len()]);
    }
    let names: Vec<&str> = all.iter().map(|t| t.name()).collect();
    assert_eq!(
        names,
        vec!["Default", "Dracula", "Solarized Dark", "Solarized Light", "GitHub Dark", "Nord"]
    );
}

#[test]
fn theme_colors_match_the_palettes() {
    assert_eq!(Theme::Default.colors(), ColorScheme::default_theme());
    assert_eq!(Theme::Dracula.colors(), ColorScheme::dracula());
    assert_eq!(Theme::SolarizedDark.colors(), ColorScheme::solarized_dark());
    assert_eq!(Theme::SolarizedLight.colors(), ColorScheme::solarized_light());
    assert_eq!(Theme::GitHubDark.colors(), ColorScheme::github_dark());
    assert_eq!(Theme::Nord.colors(), ColorScheme::nord());
    let colors = ColorScheme::dracula();
    assert_eq!(colors.number_fg, Color::Rgb(189, 147, 249));
    assert_eq!(colors.header_bg, Some(Color::Rgb(68, 71, 90)));
    assert_eq!(ColorScheme::default_theme().header_bg, None);
    assert_eq!(colors.cell_color(&CellValue::Int(1)), colors.number_fg);
    assert_eq!(colors.cell_color(&number("1.5", "1.50")), colors.number_fg);
    assert_eq!(colors.cell_color(&text("a")), colors.string_fg);
    assert_eq!(colors.cell_color(&CellValue::Empty), colors.empty_fg);
    assert_eq!(colors.cell_color(&CellValue::Bool(true)), colors.bool_fg);
    assert_eq!(colors.cell_color(&CellValue::Error("x".to_string())), colors.error_fg);
}

#[test]
fn progress_is_formatted_with_percentage() {
    let mut progress = ProgressInfo::new("Searching".to_string(), 2000);
    assert_eq!(progress.percentage(), 0);
    progress.update(500);
    assert_eq!(progress.percentage(), 25);
    assert_eq!(progress.format(), "Searching 25% (500/2000)");
    progress.update(1999);
    assert_eq!(progress.percentage(), 99);
    let nothing = ProgressInfo::new("Idle".to_string(), 0);
    assert_eq!(nothing.percentage(), 100);
    assert_eq!(nothing.format(), "Idle 100% (0/0)");
    let mut over = ProgressInfo::new("Over".to_string(), 1);
    over.update(usize::MAX);
    assert_eq!(over.percentage(), usize::MAX);
}

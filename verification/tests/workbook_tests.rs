use calamine::Range;
use xleak::cell::{CellValue, NumberText, SerialDate};
use xleak::source::SheetDataSource;
use xleak::workbook::{DataRange, LazySheetData, SheetData};

/// A number with a fraction, decoded as the reader of a workbook decodes it.
fn float_cell(val: f64) -> CellValue {
    let raw = if val.fract() == 0.0 { format!("{val:.0}") } else { val.to_string() };
    let fixed = if val.fract() == 0.0 { format!("{val:.0}") } else { format!("{val:.2}") };
    CellValue::Float(NumberText { raw, fixed })
}

/// A serial date, decoded as the reader of a workbook decodes it.
fn datetime_cell(d: f64) -> CellValue {
    let frac = d.fract();
    let clock = if frac.abs() > 0.000001 { Some((frac * 86400.0) as u32) } else { None };
    let raw_clock =
        if frac.abs() < 0.0000001 { None } else { Some((frac * 86400.0).round() as i64) };
    CellValue::DateTime(SerialDate { days: d.floor() as i64, clock, raw_clock })
}

fn text(s: &str) -> CellValue {
    CellValue::String(s.to_string())
}

fn numbered_range(rows: usize, cols: usize) -> DataRange {
    let header: Vec<String> = (0..cols).map(|c| format!("H{c}")).collect();
    let body: Vec<Vec<CellValue>> = (0..rows)
        .map(|r| (0..cols).map(|c| CellValue::Int((r * 100 + c) as i64)).collect())
        .collect();
    DataRange { height: rows + 1, width: cols, header, body }
}

fn ints(rows: &[Vec<CellValue>]) -> Vec<Vec<i64>> {
    rows.iter()
        .map(|r| {
            r.iter()
                .map(|c| match c {
                    CellValue::Int(i) => *i,
                    _ => -1,
                })
                .collect()
        })
        .collect()
}

fn formulas(start: (u32, u32), end: (u32, u32), cells: &[((u32, u32), &str)]) -> Range<String> {
    let mut range: Range<String> = Range::new(start, end);
    for (pos, f) in cells {
        range.set_value(*pos, f.to_string());
    }
    range
}

#[test]
fn test_cellvalue_display_integer() {
    let val = CellValue::Int(1234567);
    assert_eq!(val.to_string(), "1,234,567");
}

#[test]
fn test_cellvalue_display_negative_integer() {
    let val = CellValue::Int(-1234567);
    assert_eq!(val.to_string(), "-1,234,567");
}

#[test]
fn test_cellvalue_display_float() {
    let val = float_cell(1234567.89);
    assert_eq!(val.to_string(), "1,234,567.89");
}

#[test]
fn test_cellvalue_display_float_whole_number() {
    let val = float_cell(1000.0);
    assert_eq!(val.to_string(), "1,000");
}

#[test]
fn test_cellvalue_display_boolean() {
    assert_eq!(CellValue::Bool(true).to_string(), "true");
    assert_eq!(CellValue::Bool(false).to_string(), "false");
}

#[test]
fn test_cellvalue_display_string() {
    let val = CellValue::String("Hello, World!".to_string());
    assert_eq!(val.to_string(), "Hello, World!");
}

#[test]
fn test_cellvalue_display_empty() {
    let val = CellValue::Empty;
    assert_eq!(val.to_string(), "");
}

#[test]
fn test_cellvalue_display_error() {
    let val = CellValue::Error("DIV/0!".to_string());
    assert_eq!(val.to_string(), "ERROR: DIV/0!");
}

#[test]
fn test_cellvalue_to_raw_string_integer() {
    let val = CellValue::Int(1234567);
    assert_eq!(val.to_raw_string(), "1234567");
}

#[test]
fn test_cellvalue_to_raw_string_float() {
    let val = float_cell(123.45);
    assert_eq!(val.to_raw_string(), "123.45");
}

#[test]
fn test_cellvalue_is_empty() {
    assert!(CellValue::Empty.is_empty());
    assert!(!CellValue::Int(0).is_empty());
    assert!(!CellValue::String("".to_string()).is_empty());
}

#[test]
fn test_cellvalue_is_numeric() {
    assert!(CellValue::Int(123).is_numeric());
    assert!(float_cell(123.45).is_numeric());
    assert!(!CellValue::String("123".to_string()).is_numeric());
    assert!(!CellValue::Empty.is_numeric());
}

#[test]
fn test_datetime_display() {
    let val = datetime_cell(1.0);
    let display = val.to_string();
    assert!(display.contains("1900") || display.contains("1899"));
}

#[test]
fn test_datetime_with_time() {
    let val = datetime_cell(1.5);
    let display = val.to_string();
    assert!(display.contains(":"));
    assert!(display.len() > 10);
}

#[test]
fn test_sheet_data_structure() {
    let sheet = SheetData {
        headers: vec!["Name".to_string(), "Age".to_string()],
        rows: vec![
            vec![CellValue::String("Alice".to_string()), CellValue::Int(30)],
            vec![CellValue::String("Bob".to_string()), CellValue::Int(25)],
        ],
        formulas: vec![vec![None, None], vec![None, None]],
        width: 2,
        height: 2,
    };

    assert_eq!(sheet.width, 2);
    assert_eq!(sheet.height, 2);
    assert_eq!(sheet.headers.len(), 2);
    assert_eq!(sheet.rows.len(), 2);
}

#[test]
fn integer_display_edges() {
    assert_eq!(CellValue::Int(0).to_string(), "0");
    assert_eq!(CellValue::Int(999).to_string(), "999");
    assert_eq!(CellValue::Int(1000).to_string(), "1,000");
    assert_eq!(CellValue::Int(-999).to_string(), "-999");
    assert_eq!(CellValue::Int(-1000).to_string(), "-1,000");
    assert_eq!(CellValue::Int(i64::MAX).to_string(), "9,223,372,036,854,775,807");
    assert_eq!(CellValue::Int(i64::MIN).to_string(), "-9,223,372,036,854,775,808");
    assert_eq!(CellValue::Int(i64::MIN).to_raw_string(), "-9223372036854775808");
    assert_eq!(CellValue::Int(-7).to_raw_string(), "-7");
}

#[test]
fn raw_integer_text_reads_back_as_the_same_number() {
    for i in [0i64, 1, -1, 42, -1000, 1234567, i64::MAX, i64::MIN] {
        let raw = CellValue::Int(i).to_raw_string();
        assert_eq!(raw.parse::<i64>(), Ok(i));
    }
    for v in [0.5f64, -2.25, 123.45, 1e21, 1000.0] {
        let raw = float_cell(v).to_raw_string();
        assert_eq!(raw.parse::<f64>(), Ok(v));
    }
}

#[test]
fn float_display_groups_the_whole_part_only() {
    assert_eq!(float_cell(-1234567.891).to_string(), "-1,234,567.89");
    assert_eq!(float_cell(0.5).to_string(), "0.50");
    assert_eq!(float_cell(-0.25).to_string(), "-0.25");
    assert_eq!(float_cell(1e6).to_string(), "1,000,000");
    assert_eq!(float_cell(f64::NAN).to_string(), "NaN");
    assert_eq!(float_cell(f64::INFINITY).to_string(), "inf");
    assert_eq!(float_cell(f64::NEG_INFINITY).to_string(), "-inf");
    assert_eq!(float_cell(1234.5).to_raw_string(), "1234.5");
}

#[test]
fn raw_text_of_the_other_kinds() {
    assert_eq!(CellValue::Empty.to_raw_string(), "");
    assert_eq!(text("x y").to_raw_string(), "x y");
    assert_eq!(CellValue::Bool(true).to_raw_string(), "true");
    assert_eq!(CellValue::Bool(false).to_raw_string(), "false");
    assert_eq!(CellValue::Error("N/A".to_string()).to_raw_string(), "#N/A");
}

#[test]
fn datetime_display_exact_values() {
    assert_eq!(datetime_cell(1.0).to_string(), "1899-12-31");
    assert_eq!(datetime_cell(1.5).to_string(), "1899-12-31 12:00:00");
    assert_eq!(datetime_cell(60.0).to_string(), "1900-02-28");
    assert_eq!(datetime_cell(61.0).to_string(), "1900-02-28");
    assert_eq!(datetime_cell(62.0).to_string(), "1900-03-01");
    assert_eq!(datetime_cell(45000.0).to_string(), "2023-03-14");
    assert_eq!(datetime_cell(45000.75).to_string(), "2023-03-14 18:00:00");
    assert_eq!(datetime_cell(0.0).to_string(), "1899-12-30");
    let far = CellValue::DateTime(SerialDate { days: i64::MAX, clock: None, raw_clock: None });
    assert_eq!(far.to_string(), "Date[9223372036854775807]");
    let beyond = CellValue::DateTime(SerialDate {
        days: 4_000_000_000,
        clock: Some(5),
        raw_clock: Some(5),
    });
    assert_eq!(beyond.to_string(), "Date[4000000000]");
    assert_eq!(beyond.to_raw_string(), "Date[4000000000]");
}

#[test]
fn datetime_raw_text_has_no_leap_correction() {
    assert_eq!(datetime_cell(61.0).to_raw_string(), "1900-03-01");
    assert_eq!(datetime_cell(45000.0).to_raw_string(), "2023-03-15");
    assert_eq!(datetime_cell(45000.75).to_raw_string(), "2023-03-15 18:00:00");
    assert_eq!(datetime_cell(1.000011574).to_raw_string(), "1899-12-31 00:00:01");
    let negative = CellValue::DateTime(SerialDate { days: -2, clock: Some(0), raw_clock: Some(-43201) });
    assert_eq!(negative.to_raw_string(), "1899-12-28 -12:00:-1");
    assert_eq!(negative.to_string(), "1899-12-28 00:00:00");
}

#[test]
fn eager_load_splits_header_and_body() {
    let sheet = SheetData::from_range_with_formulas(numbered_range(3, 2), None);
    assert_eq!(sheet.headers, vec!["H0", "H1"]);
    assert_eq!((sheet.width, sheet.height), (2, 3));
    assert_eq!(ints(&sheet.rows), vec![vec![0, 1], vec![100, 101], vec![200, 201]]);
    assert_eq!(sheet.formulas, vec![vec![None, None]; 3]);
    let empty = SheetData::from_range_with_formulas(
        DataRange { height: 0, width: 0, header: vec![], body: vec![] },
        None,
    );
    assert_eq!((empty.width, empty.height), (0, 0));
    assert!(empty.headers.is_empty() && empty.rows.is_empty() && empty.formulas.is_empty());
}

#[test]
fn formulas_are_placed_by_their_sheet_position() {
    let block = formulas(
        (1, 1),
        (3, 2),
        &[((1, 1), "=A1+1"), ((3, 2), "=SUM(B:B)"), ((2, 2), "")],
    );
    let sheet = SheetData::from_range_with_formulas(numbered_range(3, 3), Some(block.clone()));
    assert_eq!(
        sheet.formulas,
        vec![
            vec![None, Some("=A1+1".to_string()), None],
            vec![None, None, None],
            vec![None, None, Some("=SUM(B:B)".to_string())],
        ]
    );
    let lazy = LazySheetData::from_range_with_formulas(numbered_range(3, 3), Some(block));
    let (rows, forms) = lazy.get_rows(2, 5);
    assert_eq!(ints(&rows), vec![vec![200, 201, 202]]);
    assert_eq!(forms, vec![vec![None, None, Some("=SUM(B:B)".to_string())]]);
    let (rows, forms) = lazy.get_rows(0, 1);
    assert_eq!(ints(&rows), vec![vec![0, 1, 2]]);
    assert_eq!(forms, vec![vec![None, Some("=A1+1".to_string()), None]]);
}

#[test]
fn formulas_in_the_header_row_and_beyond_the_width_are_left_out() {
    let block = formulas((0, 0), (1, 4), &[((0, 0), "=HEAD()"), ((1, 4), "=FAR()"), ((1, 0), "=X")]);
    let sheet = SheetData::from_range_with_formulas(numbered_range(2, 2), Some(block));
    assert_eq!(sheet.formulas, vec![vec![Some("=X".to_string()), None], vec![None, None]]);
}

#[test]
fn lazy_rows_are_clamped_to_the_sheet() {
    let lazy = LazySheetData::from_range_with_formulas(numbered_range(5, 1), None);
    assert_eq!(lazy.headers, vec!["H0"]);
    assert_eq!((lazy.width, lazy.height), (1, 5));
    assert_eq!(ints(&lazy.get_rows(3, 10).0), vec![vec![300], vec![400]]);
    assert_eq!(lazy.get_rows(3, 10).1.len(), 2);
    assert!(lazy.get_rows(5, 1).0.is_empty());
    assert!(lazy.get_rows(9, 1).0.is_empty());
    assert!(lazy.get_rows(usize::MAX, usize::MAX).0.is_empty());
    assert!(lazy.get_rows(2, 0).0.is_empty());
    let whole = lazy.to_sheet_data();
    assert_eq!(whole.rows.len(), 5);
}

#[test]
fn both_strategies_serve_the_same_rows() {
    let mut eager = SheetDataSource::eager(SheetData::from_range_with_formulas(
        numbered_range(1200, 2),
        None,
    ));
    let mut lazy = SheetDataSource::lazy(
        LazySheetData::from_range_with_formulas(numbered_range(1200, 2), None),
        200,
    );
    assert_eq!(eager.headers(), lazy.headers());
    assert_eq!((eager.width(), eager.height()), (lazy.width(), lazy.height()));
    for (start, count) in [(0usize, 10usize), (100, 50), (90, 500), (1195, 10), (1200, 3), (5000, 1), (0, 0)] {
        let a = eager.get_rows(start, count);
        let b = lazy.get_rows(start, count);
        assert_eq!(ints(&a.0), ints(&b.0));
        assert_eq!(a.1, b.1);
        let expected = (start + count).min(1200).saturating_sub(start);
        assert_eq!(a.0.len(), expected);
    }
    assert_eq!(ints(&lazy.get_rows(700, 2).0), vec![vec![70000, 70001], vec![70100, 70101]]);
}

fn window_start(source: &SheetDataSource) -> Option<(usize, usize)> {
    match source {
        SheetDataSource::Lazy { cache: Some(c), .. } => Some((c.start_row, c.rows.len())),
        _ => None,
    }
}

#[test]
fn window_is_rebuilt_a_quarter_before_a_miss() {
    let mut lazy = SheetDataSource::lazy(
        LazySheetData::from_range_with_formulas(numbered_range(5000, 1), None),
        200,
    );
    assert_eq!(window_start(&lazy), None);
    lazy.get_rows(1000, 10);
    assert_eq!(window_start(&lazy), Some((950, 200)));
    lazy.get_rows(1149, 10);
    assert_eq!(window_start(&lazy), Some((950, 200)));
    lazy.get_rows(950, 10);
    assert_eq!(window_start(&lazy), Some((950, 200)));
    lazy.get_rows(1150, 10);
    assert_eq!(window_start(&lazy), Some((1100, 200)));
    lazy.get_rows(1099, 10);
    assert_eq!(window_start(&lazy), Some((1049, 200)));
    lazy.get_rows(20, 10);
    assert_eq!(window_start(&lazy), Some((0, 200)));
    lazy.get_rows(4990, 10);
    assert_eq!(window_start(&lazy), Some((4940, 60)));
}

#[test]
fn get_cell_gives_value_and_formula() {
    let block = formulas((2, 1), (2, 1), &[((2, 1), "=B2*2")]);
    let mut eager = SheetDataSource::eager(SheetData::from_range_with_formulas(
        numbered_range(3, 2),
        Some(block.clone()),
    ));
    let mut lazy = SheetDataSource::lazy(
        LazySheetData::from_range_with_formulas(numbered_range(3, 2), Some(block)),
        200,
    );
    for source in [&mut eager, &mut lazy] {
        let (cell, formula) = source.get_cell(1, 1);
        assert!(matches!(cell, Some(CellValue::Int(101))));
        assert_eq!(formula.as_deref(), Some("=B2*2"));
        let (cell, formula) = source.get_cell(0, 0);
        assert!(matches!(cell, Some(CellValue::Int(0))));
        assert_eq!(formula, None);
        assert!(source.get_cell(3, 0).0.is_none());
        assert!(source.get_cell(0, 2).0.is_none());
    }
}

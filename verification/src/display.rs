//! Texts for the display outside the interactive viewer and for export: the
//! cells of a table as they are shown, and a sheet or a table as CSV, as JSON
//! and as plain text. Printing is left to the caller.

use vstd::prelude::*;
use crate::cell::CellValue;
use crate::text::{chars_of, decimal, push_chars, push_decimal, push_str, texts};
use crate::workbook::{SheetData, TableData};

verus! {

/// The texts of `items` with `sep` between them.
pub open spec fn joined(items: Seq<Seq<char>>, sep: Seq<char>) -> Seq<char>
    decreases items.len(),
{
    if items.len() == 0 {
        Seq::empty()
    } else if items.len() == 1 {
        items[0]
    } else {
        joined(items.drop_last(), sep) + sep + items.last()
    }
}

/// The text with `by` in place of every quotation mark.
pub open spec fn quotes_replaced(text: Seq<char>, by: Seq<char>) -> Seq<char>
    decreases text.len(),
{
    if text.len() == 0 {
        Seq::empty()
    } else if text.last() == '"' {
        quotes_replaced(text.drop_last(), by) + by
    } else {
        quotes_replaced(text.drop_last(), by).push(text.last())
    }
}

/// The text holds the character `mark`.
pub open spec fn holds(text: Seq<char>, mark: char) -> bool {
    exists|i: int| 0 <= i < text.len() && #[trigger] text[i] == mark
}

/// A text cut to `max_width` characters: a text that is longer ends in three
/// dots where there is room for them.
pub open spec fn width_limited(value: Seq<char>, max_width: usize) -> Seq<char> {
    if value.len() <= max_width {
        value
    } else if max_width > 3 {
        value.take(max_width - 3) + "..."@
    } else {
        value.take(max_width as int)
    }
}

/// A field of a CSV line: in quotation marks, with its own quotation marks
/// doubled, where it holds a comma or a quotation mark.
pub open spec fn csv_field(value: Seq<char>) -> Seq<char> {
    if holds(value, ',') || holds(value, '"') {
        seq!['"'] + quotes_replaced(value, seq!['"', '"']) + seq!['"']
    } else {
        value
    }
}

/// The value of a cell in JSON: a quoted text, a number, a truth value or
/// `null`; errors and dates as their display text in quotation marks.
pub open spec fn json_value(cell: CellValue) -> Seq<char> {
    match cell {
        CellValue::String(s) => seq!['"'] + quotes_replaced(s@, seq!['\\', '"']) + seq!['"'],
        CellValue::Int(_) => cell.raw_text(),
        CellValue::Float(_) => cell.raw_text(),
        CellValue::Bool(_) => cell.raw_text(),
        CellValue::Empty => "null"@,
        _ => seq!['"'] + cell.display_text() + seq!['"'],
    }
}

/// The display texts of a row as fields of a CSV line.
pub open spec fn csv_display_fields(row: Seq<CellValue>) -> Seq<Seq<char>> {
    Seq::new(row.len(), |i: int| csv_field(row[i].display_text()))
}

/// The raw texts of a row as fields of a CSV line.
pub open spec fn csv_raw_fields(row: Seq<CellValue>) -> Seq<Seq<char>> {
    Seq::new(row.len(), |i: int| csv_field(row[i].raw_text()))
}

/// The display texts of a row.
pub open spec fn display_fields(row: Seq<CellValue>) -> Seq<Seq<char>> {
    Seq::new(row.len(), |i: int| row[i].display_text())
}

/// The raw texts of a row.
pub open spec fn raw_fields(row: Seq<CellValue>) -> Seq<Seq<char>> {
    Seq::new(row.len(), |i: int| row[i].raw_text())
}

/// The values of a row in JSON.
pub open spec fn json_fields(row: Seq<CellValue>) -> Seq<Seq<char>> {
    Seq::new(row.len(), |i: int| json_value(row[i]))
}

/// How the cells of a row are written as fields of a line.
pub enum FieldForm {
    /// The display text.
    Display,
    /// The raw text.
    Raw,
    /// The display text as a field of a CSV line.
    CsvDisplay,
    /// The raw text as a field of a CSV line.
    CsvRaw,
    /// The value in JSON.
    Json,
}

/// The fields of a row in the given form.
pub open spec fn fields_of(row: Seq<CellValue>, form: FieldForm) -> Seq<Seq<char>> {
    match form {
        FieldForm::Display => display_fields(row),
        FieldForm::Raw => raw_fields(row),
        FieldForm::CsvDisplay => csv_display_fields(row),
        FieldForm::CsvRaw => csv_raw_fields(row),
        FieldForm::Json => json_fields(row),
    }
}

/// The first `n` rows, each as a line of its fields with `sep` between them
/// and a line feed behind it.
pub open spec fn row_lines(rows: Seq<Vec<CellValue>>, n: int, form: FieldForm, sep: Seq<char>) -> Seq<
    char,
>
    decreases n,
{
    if n <= 0 {
        Seq::empty()
    } else {
        row_lines(rows, n - 1, form, sep) + joined(fields_of(rows[n - 1]@, form), sep) + seq![
            '\n',
        ]
    }
}

/// A sheet or a table as lines of fields: the headers, then the rows.
pub open spec fn lines_text(
    headers: Seq<String>,
    rows: Seq<Vec<CellValue>>,
    form: FieldForm,
    sep: Seq<char>,
) -> Seq<char> {
    joined(texts(headers), sep) + seq!['\n'] + row_lines(rows, rows.len() as int, form, sep)
}

/// The first `n` headers as lines of a JSON list.
pub open spec fn json_header_lines(headers: Seq<String>, n: int) -> Seq<char>
    decreases n,
{
    if n <= 0 {
        Seq::empty()
    } else {
        json_header_lines(headers, n - 1) + "    \""@ + headers[n - 1]@ + "\""@ + (if n
            < headers.len() {
            ","@
        } else {
            ""@
        }) + seq!['\n']
    }
}

/// The first `n` rows as lines of a JSON list of lists.
pub open spec fn json_row_lines(rows: Seq<Vec<CellValue>>, n: int) -> Seq<char>
    decreases n,
{
    if n <= 0 {
        Seq::empty()
    } else {
        json_row_lines(rows, n - 1) + "    ["@ + joined(
            fields_of(rows[n - 1]@, FieldForm::Json),
            ", "@,
        ) + "]"@ + (if n < rows.len() {
            ","@
        } else {
            ""@
        }) + seq!['\n']
    }
}

/// The headers and the rows as the last two members of a JSON object, and the
/// end of the object.
pub open spec fn json_body(headers: Seq<String>, rows: Seq<Vec<CellValue>>) -> Seq<char> {
    "  \"headers\": [\n"@ + json_header_lines(headers, headers.len() as int)
        + "  ],\n  \"data\": [\n"@ + json_row_lines(rows, rows.len() as int) + "  ]\n}\n"@
}

/// A sheet as JSON.
pub open spec fn sheet_json(data: SheetData, sheet_name: Seq<char>) -> Seq<char> {
    "{\n  \"sheet\": \""@ + sheet_name + "\",\n  \"rows\": "@ + decimal(data.height as nat)
        + ",\n  \"columns\": "@ + decimal(data.width as nat) + ",\n"@ + json_body(
        data.headers@,
        data.rows@,
    )
}

/// A table as JSON.
pub open spec fn table_json(table: TableData) -> Seq<char> {
    "{\n  \"table\": \""@ + table.name@ + "\",\n  \"sheet\": \""@ + table.sheet_name@
        + "\",\n  \"columns\": "@ + decimal(table.headers@.len()) + ",\n  \"rows\": "@ + decimal(
        table.rows@.len(),
    ) + ",\n"@ + json_body(table.headers@, table.rows@)
}

/// Whether the text holds the character `mark`.
pub fn has_char(v: &Vec<char>, mark: char) -> (r: bool)
    ensures
        r == holds(v@, mark),
{
    let mut i: usize = 0;
    while i < v.len()
        invariant
            0 <= i <= v.len(),
            forall|k: int| 0 <= k < i ==> v@[k] != mark,
        decreases v.len() - i,
    {
        if v[i] == mark {
            return true;
        }
        i += 1;
    }
    false
}

/// Appends the text with `by` in place of every quotation mark.
pub fn push_quotes_replaced(out: &mut String, v: &Vec<char>, by: &str)
    ensures
        final(out)@ == old(out)@ + quotes_replaced(v@, by@),
{
    let mut j: usize = 0;
    while j < v.len()
        invariant
            0 <= j <= v.len(),
            out@ == old(out)@ + quotes_replaced(v@.take(j as int), by@),
        decreases v.len() - j,
    {
        proof {
            assert(v@.take(j + 1).drop_last() == v@.take(j as int));
        }
        if v[j] == '"' {
            push_str(out, by);
        } else {
            out.push(v[j]);
        }
        j += 1;
    }
    proof {
        assert(v@.take(v.len() as int) == v@);
    }
}

/// Cuts a text to `max_width` characters: a text that is longer ends in three
/// dots where there is room for them. Wrapping cuts in the same way.
pub fn format_cell_value(value: &str, max_width: usize, wrap: bool) -> (out: String)
    ensures
        out@ == width_limited(value@, max_width),
{
    let v = chars_of(value);
    let mut out = String::new();
    if v.len() <= max_width {
        push_chars(&mut out, &v, 0, v.len());
    } else if max_width > 3 {
        push_chars(&mut out, &v, 0, max_width - 3);
        push_str(&mut out, "...");
    } else {
        push_chars(&mut out, &v, 0, max_width);
    }
    out
}

/// Appends a field of a CSV line.
pub fn push_csv_field(out: &mut String, value: &str)
    ensures
        final(out)@ == old(out)@ + csv_field(value@),
{
    let v = chars_of(value);
    if has_char(&v, ',') || has_char(&v, '"') {
        out.push('"');
        push_quotes_replaced(out, &v, "\"\"");
        out.push('"');
        proof {
            reveal_strlit("\"\"");
            assert("\"\""@ =~= seq!['"', '"']);
        }
    } else {
        push_str(out, value);
    }
}

/// Appends the value of a cell in JSON.
pub fn push_json_value(out: &mut String, cell: &CellValue)
    ensures
        final(out)@ == old(out)@ + json_value(*cell),
{
    match cell {
        CellValue::String(s) => {
            let v = chars_of(s.as_str());
            out.push('"');
            push_quotes_replaced(out, &v, "\\\"");
            out.push('"');
            proof {
                reveal_strlit("\\\"");
                assert("\\\""@ =~= seq!['\\', '"']);
            }
        },
        CellValue::Int(_) => {
            let raw = cell.to_raw_string();
            push_str(out, raw.as_str());
        },
        CellValue::Float(_) => {
            let raw = cell.to_raw_string();
            push_str(out, raw.as_str());
        },
        CellValue::Bool(_) => {
            let raw = cell.to_raw_string();
            push_str(out, raw.as_str());
        },
        CellValue::Empty => {
            push_str(out, "null");
        },
        _ => {
            let shown = cell.to_string();
            out.push('"');
            push_str(out, shown.as_str());
            out.push('"');
        },
    }
}

/// Appends a cell as a field in the given form.
pub fn push_field(out: &mut String, cell: &CellValue, form: &FieldForm)
    ensures
        final(out)@ == old(out)@ + fields_of(seq![*cell], *form)[0],
{
    match form {
        FieldForm::Display => {
            let shown = cell.to_string();
            push_str(out, shown.as_str());
        },
        FieldForm::Raw => {
            let raw = cell.to_raw_string();
            push_str(out, raw.as_str());
        },
        FieldForm::CsvDisplay => {
            let shown = cell.to_string();
            push_csv_field(out, shown.as_str());
        },
        FieldForm::CsvRaw => {
            let raw = cell.to_raw_string();
            push_csv_field(out, raw.as_str());
        },
        FieldForm::Json => {
            push_json_value(out, cell);
        },
    }
}

/// Appends the texts of `items` with `sep` between them.
pub fn push_joined(out: &mut String, items: &Vec<String>, sep: &str)
    ensures
        final(out)@ == old(out)@ + joined(texts(items@), sep@),
{
    let mut i: usize = 0;
    while i < items.len()
        invariant
            0 <= i <= items.len(),
            out@ == old(out)@ + joined(texts(items@.take(i as int)), sep@),
        decreases items.len() - i,
    {
        if i > 0 {
            push_str(out, sep);
        }
        push_str(out, items[i].as_str());
        proof {
            let now = texts(items@.take(i + 1));
            assert(now.drop_last() =~= texts(items@.take(i as int)));
        }
        i += 1;
    }
    proof {
        assert(items@.take(items.len() as int) == items@);
    }
}

/// Appends the fields of a row in the given form with `sep` between them.
pub fn push_row(out: &mut String, row: &Vec<CellValue>, form: &FieldForm, sep: &str)
    ensures
        final(out)@ == old(out)@ + joined(fields_of(row@, *form), sep@),
{
    let mut i: usize = 0;
    while i < row.len()
        invariant
            0 <= i <= row.len(),
            out@ == old(out)@ + joined(fields_of(row@.take(i as int), *form), sep@),
        decreases row.len() - i,
    {
        if i > 0 {
            push_str(out, sep);
        }
        push_field(out, &row[i], form);
        proof {
            let now = fields_of(row@.take(i + 1), *form);
            assert(now.drop_last() =~= fields_of(row@.take(i as int), *form));
        }
        i += 1;
    }
    proof {
        assert(row@.take(row.len() as int) == row@);
    }
}

/// A sheet or a table as lines of fields: the headers, then the rows.
pub fn lines_of_fields(
    headers: &Vec<String>,
    rows: &Vec<Vec<CellValue>>,
    form: &FieldForm,
    sep: &str,
) -> (out: String)
    ensures
        out@ == lines_text(headers@, rows@, *form, sep@),
{
    let mut out = String::new();
    push_joined(&mut out, headers, sep);
    out.push('\n');
    let ghost head = out@;
    let mut i: usize = 0;
    while i < rows.len()
        invariant
            0 <= i <= rows.len(),
            out@ == head + row_lines(rows@, i as int, *form, sep@),
        decreases rows.len() - i,
    {
        push_row(&mut out, &rows[i], form, sep);
        out.push('\n');
        i += 1;
    }
    out
}

/// Appends the headers and the rows as the last two members of a JSON object,
/// and the end of the object.
pub fn push_json_body(out: &mut String, headers: &Vec<String>, rows: &Vec<Vec<CellValue>>)
    ensures
        final(out)@ == old(out)@ + json_body(headers@, rows@),
{
    push_str(out, "  \"headers\": [\n");
    let ghost start = out@;
    let mut i: usize = 0;
    while i < headers.len()
        invariant
            0 <= i <= headers.len(),
            out@ == start + json_header_lines(headers@, i as int),
        decreases headers.len() - i,
    {
        push_str(out, "    \"");
        push_str(out, headers[i].as_str());
        push_str(out, "\"");
        if i + 1 < headers.len() {
            push_str(out, ",");
        } else {
            push_str(out, "");
        }
        out.push('\n');
        i += 1;
    }
    push_str(out, "  ],\n  \"data\": [\n");
    let ghost middle = out@;
    let form = FieldForm::Json;
    let mut j: usize = 0;
    while j < rows.len()
        invariant
            0 <= j <= rows.len(),
            form == FieldForm::Json,
            out@ == middle + json_row_lines(rows@, j as int),
        decreases rows.len() - j,
    {
        push_str(out, "    [");
        push_row(out, &rows[j], &form, ", ");
        push_str(out, "]");
        if j + 1 < rows.len() {
            push_str(out, ",");
        } else {
            push_str(out, "");
        }
        out.push('\n');
        j += 1;
    }
    push_str(out, "  ]\n}\n");
}

/// A sheet as CSV: the headers, then the display texts of the rows, with
/// commas between the fields.
pub fn export_csv(data: &SheetData) -> (out: String)
    ensures
        out@ == lines_text(data.headers@, data.rows@, FieldForm::CsvDisplay, ","@),
{
    lines_of_fields(&data.headers, &data.rows, &FieldForm::CsvDisplay, ",")
}

/// A sheet as plain text: the headers, then the display texts of the rows,
/// with tabs between the fields.
pub fn export_text(data: &SheetData) -> (out: String)
    ensures
        out@ == lines_text(data.headers@, data.rows@, FieldForm::Display, "\t"@),
{
    lines_of_fields(&data.headers, &data.rows, &FieldForm::Display, "\t")
}

/// A sheet as JSON: its name, its size, its headers and its rows.
pub fn export_json(data: &SheetData, sheet_name: &str) -> (out: String)
    ensures
        out@ == sheet_json(*data, sheet_name@),
{
    let mut out = String::new();
    push_str(&mut out, "{\n  \"sheet\": \"");
    push_str(&mut out, sheet_name);
    push_str(&mut out, "\",\n  \"rows\": ");
    push_decimal(&mut out, data.height as u64);
    push_str(&mut out, ",\n  \"columns\": ");
    push_decimal(&mut out, data.width as u64);
    push_str(&mut out, ",\n");
    push_json_body(&mut out, &data.headers, &data.rows);
    out
}

/// A table as CSV: the headers, then the raw texts of the rows, with commas
/// between the fields.
pub fn export_table_csv(table: &TableData) -> (out: String)
    ensures
        out@ == lines_text(table.headers@, table.rows@, FieldForm::CsvRaw, ","@),
{
    lines_of_fields(&table.headers, &table.rows, &FieldForm::CsvRaw, ",")
}

/// A table as plain text: the headers, then the raw texts of the rows, with
/// tabs between the fields.
pub fn export_table_text(table: &TableData) -> (out: String)
    ensures
        out@ == lines_text(table.headers@, table.rows@, FieldForm::Raw, "\t"@),
{
    lines_of_fields(&table.headers, &table.rows, &FieldForm::Raw, "\t")
}

/// A table as JSON: its name, its sheet, its size, its headers and its rows.
pub fn export_table_json(table: &TableData) -> (out: String)
    ensures
        out@ == table_json(*table),
{
    let mut out = String::new();
    push_str(&mut out, "{\n  \"table\": \"");
    push_str(&mut out, table.name.as_str());
    push_str(&mut out, "\",\n  \"sheet\": \"");
    push_str(&mut out, table.sheet_name.as_str());
    push_str(&mut out, "\",\n  \"columns\": ");
    push_decimal(&mut out, table.headers.len() as u64);
    push_str(&mut out, ",\n  \"rows\": ");
    push_decimal(&mut out, table.rows.len() as u64);
    push_str(&mut out, ",\n");
    push_json_body(&mut out, &table.headers, &table.rows);
    out
}

/// How a cell of a printed table is set.
#[derive(Debug, Clone, Copy, PartialEq, Eq, Structural)]
pub enum CellStyle {
    Plain,
    /// A formula, or a value shown where formulas are asked for.
    Formula,
    /// A number, set to the right.
    Number,
    /// A truth value, centred.
    Boolean,
    /// An error, marked and centred.
    Error,
}

/// A sheet or a table as it is printed.
#[derive(Debug)]
pub struct TableDisplay {
    /// The line above the table.
    pub heading: String,
    /// The headers of the columns.
    pub titles: Vec<String>,
    /// The text of each cell of the rows shown.
    pub cells: Vec<Vec<String>>,
    /// How each cell of the rows shown is set.
    pub styles: Vec<Vec<CellStyle>>,
    /// The line below the table.
    pub summary: String,
}

/// How many of `total` rows are shown under a limit of `max_rows`, where a
/// limit of 0 is none.
pub open spec fn shown_rows(max_rows: usize, total: usize) -> usize {
    if max_rows == 0 || max_rows >= total {
        total
    } else {
        max_rows
    }
}

/// How a cell is set: as a formula where formulas are shown, else by its kind.
pub open spec fn style_of(cell: CellValue, show_formulas: bool) -> CellStyle {
    if show_formulas {
        CellStyle::Formula
    } else {
        match cell {
            CellValue::Int(_) => CellStyle::Number,
            CellValue::Float(_) => CellStyle::Number,
            CellValue::Bool(_) => CellStyle::Boolean,
            CellValue::Error(_) => CellStyle::Error,
            _ => CellStyle::Plain,
        }
    }
}

/// The formula at `col` of a row of formulas, if there is one.
pub open spec fn formula_in_row(formulas: Seq<Option<String>>, col: int) -> Option<Seq<char>> {
    if 0 <= col < formulas.len() && formulas[col] is Some {
        Some(formulas[col]->0@)
    } else {
        None
    }
}

/// The text of a cell of a printed table: its formula where formulas are shown
/// and it has one, else its display text, cut to the width.
pub open spec fn table_cell_text(
    cell: CellValue,
    formula: Option<Seq<char>>,
    max_width: Option<usize>,
    show_formulas: bool,
) -> Seq<char> {
    let value = if show_formulas && formula is Some {
        formula->0
    } else {
        cell.display_text()
    };
    match max_width {
        Some(w) => width_limited(value, w),
        None => value,
    }
}

/// The texts of the cells of a row of a printed table.
pub open spec fn table_row_texts(
    row: Seq<CellValue>,
    formulas: Seq<Option<String>>,
    max_width: Option<usize>,
    show_formulas: bool,
) -> Seq<Seq<char>> {
    Seq::new(
        row.len(),
        |c: int| table_cell_text(row[c], formula_in_row(formulas, c), max_width, show_formulas),
    )
}

/// How the cells of a row of a printed table are set.
pub open spec fn table_row_styles(row: Seq<CellValue>, show_formulas: bool) -> Seq<CellStyle> {
    Seq::new(row.len(), |c: int| style_of(row[c], show_formulas))
}

/// The headers cut to the width.
pub open spec fn limited_titles(headers: Seq<String>, max_width: usize) -> Seq<Seq<char>> {
    Seq::new(headers.len(), |i: int| width_limited(headers[i]@, max_width))
}

/// The words on the size of a sheet or a table.
pub open spec fn size_words(rows: nat, columns: nat) -> Seq<char> {
    decimal(rows) + " rows × "@ + decimal(columns) + " columns"@
}

/// The line below a printed table: how many of the rows are shown, or the
/// size where all are.
pub open spec fn summary_text(shown: usize, total: usize, rows: nat, columns: nat) -> Seq<char> {
    if shown < total {
        "⚠️  Showing "@ + decimal(shown as nat) + " of "@ + decimal(total as nat)
            + " rows (use -n 0 to show all)"@
    } else {
        "Total: "@ + size_words(rows, columns)
    }
}

/// The formulas of row `i`, or none where the grid of formulas has no such row.
pub open spec fn formulas_row(formulas: Seq<Vec<Option<String>>>, i: int) -> Seq<Option<String>> {
    if 0 <= i < formulas.len() {
        formulas[i]@
    } else {
        Seq::empty()
    }
}

/// How many of `total` rows are shown under a limit of `max_rows`.
pub fn rows_to_show(max_rows: usize, total: usize) -> (r: usize)
    ensures
        r == shown_rows(max_rows, total),
{
    if max_rows == 0 || max_rows >= total {
        total
    } else {
        max_rows
    }
}

/// How a cell is set.
pub fn cell_style(cell: &CellValue, show_formulas: bool) -> (r: CellStyle)
    ensures
        r == style_of(*cell, show_formulas),
{
    if show_formulas {
        CellStyle::Formula
    } else {
        match cell {
            CellValue::Int(_) => CellStyle::Number,
            CellValue::Float(_) => CellStyle::Number,
            CellValue::Bool(_) => CellStyle::Boolean,
            CellValue::Error(_) => CellStyle::Error,
            _ => CellStyle::Plain,
        }
    }
}

/// Appends the words on the size of a sheet or a table.
pub fn push_size_words(out: &mut String, rows: usize, columns: usize)
    ensures
        final(out)@ == old(out)@ + size_words(rows as nat, columns as nat),
{
    push_decimal(out, rows as u64);
    push_str(out, " rows × ");
    push_decimal(out, columns as u64);
    push_str(out, " columns");
}

/// The line below a printed table.
pub fn summary_line(shown: usize, total: usize, rows: usize, columns: usize) -> (out: String)
    ensures
        out@ == summary_text(shown, total, rows as nat, columns as nat),
{
    let mut out = String::new();
    if shown < total {
        push_str(&mut out, "⚠️  Showing ");
        push_decimal(&mut out, shown as u64);
        push_str(&mut out, " of ");
        push_decimal(&mut out, total as u64);
        push_str(&mut out, " rows (use -n 0 to show all)");
    } else {
        push_str(&mut out, "Total: ");
        push_size_words(&mut out, rows, columns);
    }
    out
}

/// The headers cut to the width.
pub fn title_cells(headers: &Vec<String>, max_width: usize, wrap: bool) -> (out: Vec<String>)
    ensures
        texts(out@) == limited_titles(headers@, max_width),
{
    let mut out: Vec<String> = Vec::new();
    let mut i: usize = 0;
    while i < headers.len()
        invariant
            0 <= i <= headers.len(),
            out@.len() == i,
            forall|k: int| 0 <= k < i ==> (#[trigger] out@[k])@ == width_limited(headers@[k]@, max_width),
        decreases headers.len() - i,
    {
        out.push(format_cell_value(headers[i].as_str(), max_width, wrap));
        i += 1;
    }
    out
}

/// The texts and the styles of the cells of a row of a printed table.
pub fn table_row(
    row: &Vec<CellValue>,
    formulas: Option<&Vec<Option<String>>>,
    max_width: Option<usize>,
    wrap: bool,
    show_formulas: bool,
) -> (out: (Vec<String>, Vec<CellStyle>))
    ensures
        texts(out.0@) == table_row_texts(
            row@,
            match formulas {
                Some(f) => f@,
                None => Seq::<Option<String>>::empty(),
            },
            max_width,
            show_formulas,
        ),
        out.1@ == table_row_styles(row@, show_formulas),
{
    let ghost fs = match formulas {
        Some(f) => f@,
        None => Seq::<Option<String>>::empty(),
    };
    let mut cells: Vec<String> = Vec::new();
    let mut styles: Vec<CellStyle> = Vec::new();
    let mut c: usize = 0;
    while c < row.len()
        invariant
            0 <= c <= row.len(),
            fs == (match formulas {
                Some(f) => f@,
                None => Seq::<Option<String>>::empty(),
            }),
            cells@.len() == c,
            styles@.len() == c,
            forall|k: int|
                0 <= k < c ==> (#[trigger] cells@[k])@ == table_cell_text(
                    row@[k],
                    formula_in_row(fs, k),
                    max_width,
                    show_formulas,
                ),
            forall|k: int| 0 <= k < c ==> #[trigger] styles@[k] == style_of(row@[k], show_formulas),
        decreases row.len() - c,
    {
        let formula: Option<&String> = match formulas {
            Some(f) => if c < f.len() {
                match &f[c] {
                    Some(text) => Some(text),
                    None => None,
                }
            } else {
                None
            },
            None => None,
        };
        let value: String = match formula {
            Some(f) => if show_formulas {
                f.clone()
            } else {
                row[c].to_string()
            },
            None => row[c].to_string(),
        };
        let cut: String = match max_width {
            Some(w) => format_cell_value(value.as_str(), w, wrap),
            None => value,
        };
        cells.push(cut);
        styles.push(cell_style(&row[c], show_formulas));
        c += 1;
    }
    (cells, styles)
}

/// The rows of a printed table: the first `shown` rows, each with its texts
/// and its styles.
pub fn table_rows(
    rows: &Vec<Vec<CellValue>>,
    formulas: Option<&Vec<Vec<Option<String>>>>,
    shown: usize,
    max_width: Option<usize>,
    wrap: bool,
    show_formulas: bool,
) -> (out: (Vec<Vec<String>>, Vec<Vec<CellStyle>>))
    requires
        shown <= rows@.len(),
    ensures
        out.0@.len() == shown,
        out.1@.len() == shown,
        forall|i: int|
            0 <= i < shown ==> texts((#[trigger] out.0@[i])@) == table_row_texts(
                rows@[i]@,
                match formulas {
                    Some(f) => formulas_row(f@, i),
                    None => Seq::<Option<String>>::empty(),
                },
                max_width,
                show_formulas,
            ),
        forall|i: int|
            0 <= i < shown ==> (#[trigger] out.1@[i])@ == table_row_styles(rows@[i]@, show_formulas),
{
    let mut cells: Vec<Vec<String>> = Vec::new();
    let mut styles: Vec<Vec<CellStyle>> = Vec::new();
    let mut i: usize = 0;
    while i < shown
        invariant
            0 <= i <= shown <= rows@.len(),
            cells@.len() == i,
            styles@.len() == i,
            forall|k: int|
                0 <= k < i ==> texts((#[trigger] cells@[k])@) == table_row_texts(
                    rows@[k]@,
                    match formulas {
                        Some(f) => formulas_row(f@, k),
                        None => Seq::<Option<String>>::empty(),
                    },
                    max_width,
                    show_formulas,
                ),
            forall|k: int|
                0 <= k < i ==> (#[trigger] styles@[k])@ == table_row_styles(rows@[k]@, show_formulas),
        decreases shown - i,
    {
        let row_formulas: Option<&Vec<Option<String>>> = match formulas {
            Some(f) => if i < f.len() {
                Some(&f[i])
            } else {
                None
            },
            None => None,
        };
        let (texts_row, styles_row) = table_row(&rows[i], row_formulas, max_width, wrap, show_formulas);
        cells.push(texts_row);
        styles.push(styles_row);
        i += 1;
    }
    (cells, styles)
}

/// The heading of a printed sheet.
pub open spec fn sheet_heading(sheet_name: Seq<char>, height: usize, width: usize) -> Seq<char> {
    "Sheet: "@ + sheet_name + " ("@ + size_words(height as nat, width as nat) + ")"@
}

/// The heading of a printed table.
pub open spec fn table_heading(table: TableData) -> Seq<char> {
    "Table: "@ + table.name@ + " (from sheet: "@ + table.sheet_name@ + ")\n"@ + size_words(
        table.rows@.len(),
        table.headers@.len(),
    )
}

/// A sheet as it is printed: its heading, the headers and the first rows up
/// to the limit, each text cut to `max_width` characters, and a line on how
/// many rows are shown. Where formulas are asked for, a cell that has one shows
/// it in place of its value.
pub fn display_table(
    data: &SheetData,
    sheet_name: &str,
    max_rows: usize,
    max_width: usize,
    wrap: bool,
    show_formulas: bool,
) -> (out: TableDisplay)
    ensures
        out.heading@ == sheet_heading(sheet_name@, data.height, data.width),
        texts(out.titles@) == limited_titles(data.headers@, max_width),
        out.cells@.len() == shown_rows(max_rows, data.rows@.len() as usize),
        out.styles@.len() == out.cells@.len(),
        forall|i: int|
            0 <= i < out.cells@.len() ==> texts((#[trigger] out.cells@[i])@) == table_row_texts(
                data.rows@[i]@,
                formulas_row(data.formulas@, i),
                Some(max_width),
                show_formulas,
            ),
        forall|i: int|
            0 <= i < out.cells@.len() ==> (#[trigger] out.styles@[i])@ == table_row_styles(
                data.rows@[i]@,
                show_formulas,
            ),
        out.summary@ == summary_text(
            shown_rows(max_rows, data.rows@.len() as usize),
            data.rows@.len() as usize,
            data.height as nat,
            data.width as nat,
        ),
{
    let mut heading = String::new();
    push_str(&mut heading, "Sheet: ");
    push_str(&mut heading, sheet_name);
    push_str(&mut heading, " (");
    push_size_words(&mut heading, data.height, data.width);
    push_str(&mut heading, ")");
    let titles = title_cells(&data.headers, max_width, wrap);
    let shown: usize = rows_to_show(max_rows, data.rows.len());
    let (cells, styles) = table_rows(
        &data.rows,
        Some(&data.formulas),
        shown,
        Some(max_width),
        wrap,
        show_formulas,
    );
    let summary = summary_line(shown, data.rows.len(), data.height, data.width);
    TableDisplay { heading, titles, cells, styles, summary }
}

/// A table as it is printed: its heading, the headers and the first rows up
/// to the limit, and a line on how many rows are shown.
pub fn display_table_data(table: &TableData, max_rows: usize) -> (out: TableDisplay)
    ensures
        out.heading@ == table_heading(*table),
        out.titles@ == table.headers@,
        out.cells@.len() == shown_rows(max_rows, table.rows@.len() as usize),
        out.styles@.len() == out.cells@.len(),
        forall|i: int|
            0 <= i < out.cells@.len() ==> texts((#[trigger] out.cells@[i])@) == display_fields(
                table.rows@[i]@,
            ),
        forall|i: int|
            0 <= i < out.cells@.len() ==> (#[trigger] out.styles@[i])@ == table_row_styles(
                table.rows@[i]@,
                false,
            ),
        out.summary@ == summary_text(
            shown_rows(max_rows, table.rows@.len() as usize),
            table.rows@.len() as usize,
            table.rows@.len(),
            table.headers@.len(),
        ),
{
    let mut heading = String::new();
    push_str(&mut heading, "Table: ");
    push_str(&mut heading, table.name.as_str());
    push_str(&mut heading, " (from sheet: ");
    push_str(&mut heading, table.sheet_name.as_str());
    push_str(&mut heading, ")\n");
    push_size_words(&mut heading, table.rows.len(), table.headers.len());
    let titles = crate::workbook::clone_strings(&table.headers);
    let shown: usize = rows_to_show(max_rows, table.rows.len());
    let (cells, styles) = table_rows(&table.rows, None, shown, None, false, false);
    let summary = summary_line(shown, table.rows.len(), table.rows.len(), table.headers.len());
    TableDisplay { heading, titles, cells, styles, summary }
}

} // verus!

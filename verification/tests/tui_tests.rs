use xleak::cell::CellValue;
use xleak::config::Config;
use xleak::keys::{Event, KeyCode, KeyEvent, KeyEventKind, KeyModifiers};
use xleak::tui::{Action, ClipboardOutcome, Theme, TuiState};
use xleak::workbook::{DataRange, LazySheetData};

fn text(s: &str) -> CellValue {
    CellValue::String(s.to_string())
}

fn range_of(header: &[&str], body: Vec<Vec<CellValue>>) -> DataRange {
    DataRange {
        height: body.len() + 1,
        width: header.len(),
        header: header.iter().map(|h| h.to_string()).collect(),
        body,
    }
}

fn numbered_sheet(rows: usize) -> LazySheetData {
    let body: Vec<Vec<CellValue>> = (0..rows)
        .map(|r| vec![CellValue::Int(r as i64), text(&format!("row{r}")), text("x")])
        .collect();
    LazySheetData::from_range_with_formulas(range_of(&["N", "Name", "X"], body), None)
}

fn session(rows: usize) -> TuiState {
    TuiState::new(
        vec!["One".to_string(), "Two".to_string(), "Three".to_string()],
        "One",
        numbered_sheet(rows),
        Config::default(),
    )
}

fn press(code: KeyCode, modifiers: KeyModifiers) -> Event {
    Event::Key(KeyEvent { code, modifiers, kind: KeyEventKind::Press })
}

fn key(c: char) -> Event {
    press(KeyCode::Char(c), KeyModifiers::empty())
}

fn type_text(state: &mut TuiState, s: &str) {
    for c in s.chars() {
        state.handle_event(key(c), 0);
    }
}

fn jump(state: &mut TuiState, input: &str) {
    state.handle_event(press(KeyCode::Char('g'), KeyModifiers::control()), 0);
    assert!(state.jump_mode);
    type_text(state, input);
    state.handle_event(press(KeyCode::Enter, KeyModifiers::empty()), 7);
    assert!(!state.jump_mode);
    assert_eq!(state.jump_input, "");
}

fn feedback(state: &TuiState) -> String {
    state.copy_feedback.as_ref().map(|f| f.0.clone()).unwrap_or_default()
}

#[test]
fn test_parse_cell_address_basic() {
    assert_eq!(TuiState::parse_cell_address("A1"), Some((0, 0)));
    assert_eq!(TuiState::parse_cell_address("B2"), Some((1, 1)));
    assert_eq!(TuiState::parse_cell_address("Z26"), Some((25, 25)));
}

#[test]
fn test_parse_cell_address_double_letter() {
    assert_eq!(TuiState::parse_cell_address("AA1"), Some((26, 0)));
    assert_eq!(TuiState::parse_cell_address("AB5"), Some((27, 4)));
    assert_eq!(TuiState::parse_cell_address("AZ100"), Some((51, 99)));
}

#[test]
fn test_parse_cell_address_lowercase() {
    assert_eq!(TuiState::parse_cell_address("a1"), Some((0, 0)));
    assert_eq!(TuiState::parse_cell_address("b2"), Some((1, 1)));
    assert_eq!(TuiState::parse_cell_address("aa10"), Some((26, 9)));
}

#[test]
fn test_parse_cell_address_invalid() {
    assert_eq!(TuiState::parse_cell_address(""), None);
    assert_eq!(TuiState::parse_cell_address("1"), None);
    assert_eq!(TuiState::parse_cell_address("A"), None);
    assert_eq!(TuiState::parse_cell_address("123"), None);
    assert_eq!(TuiState::parse_cell_address("!@#"), None);
    assert_eq!(TuiState::parse_cell_address("A-1"), None);
}

#[test]
fn test_parse_cell_address_large_column() {
    assert_eq!(TuiState::parse_cell_address("BA1"), Some((52, 0)));
    assert_eq!(TuiState::parse_cell_address("ZZ1"), Some((701, 0)));
}

#[test]
fn test_column_to_letter() {
    let state = session(3);
    let col_a = 0;
    let col_z = 25;
    let col_aa = 26;
    assert_eq!(state.col_to_letter(col_a), "A");
    assert_eq!(state.col_to_letter(col_z), "Z");
    assert_eq!(state.col_to_letter(col_aa), "AA");
}

#[test]
fn parse_cell_address_rejects_row_zero_and_overflow() {
    assert_eq!(TuiState::parse_cell_address("A0"), None);
    assert_eq!(TuiState::parse_cell_address("A99999999999999999999999999"), None);
    assert_eq!(TuiState::parse_cell_address("AAAAAAAAAAAAAAAAAAAAAAAAAAAAAA1"), None);
    assert_eq!(TuiState::parse_cell_address("A1B2"), None);
    assert_eq!(TuiState::parse_cell_address("A+1"), None);
}

#[test]
fn column_letters_and_addresses_agree() {
    let state = session(3);
    for col in [0usize, 1, 25, 26, 27, 51, 52, 701, 702, 18277] {
        let letters = state.col_to_letter(col);
        assert_eq!(TuiState::parse_cell_address(&format!("{letters}7")), Some((col, 6)));
    }
    assert_eq!(state.col_to_letter(702), "AAA");
}

#[test]
fn new_session_starts_at_top_left() {
    let state = session(10);
    assert_eq!(state.current_sheet_index, 0);
    assert_eq!((state.cursor_row, state.cursor_col, state.scroll_offset), (0, 0, 0));
    assert!(!state.should_quit && !state.search_mode && !state.jump_mode);
    assert_eq!(state.current_theme, Theme::Default);
    assert_eq!(state.current_sheet_name(), "One");
    let named = TuiState::new(
        vec!["One".to_string(), "Two".to_string()],
        "Two",
        numbered_sheet(2),
        Config::default(),
    );
    assert_eq!(named.current_sheet_index, 1);
    let unknown = TuiState::new(
        vec!["One".to_string(), "Two".to_string()],
        "Nope",
        numbered_sheet(2),
        Config::default(),
    );
    assert_eq!(unknown.current_sheet_index, 0);
}

#[test]
fn theme_of_configuration_is_parsed_without_case() {
    assert_eq!(TuiState::parse_theme_name("DRACULA"), Theme::Dracula);
    assert_eq!(TuiState::parse_theme_name("Solarized Dark"), Theme::SolarizedDark);
    assert_eq!(TuiState::parse_theme_name("solarizedlight"), Theme::SolarizedLight);
    assert_eq!(TuiState::parse_theme_name("GitHub Dark"), Theme::GitHubDark);
    assert_eq!(TuiState::parse_theme_name("nord"), Theme::Nord);
    assert_eq!(TuiState::parse_theme_name("NonexistentTheme"), Theme::Default);
}

#[test]
fn moves_are_clamped_and_undo_each_other() {
    let mut state = session(5);
    state.move_left();
    state.move_up();
    assert_eq!((state.cursor_row, state.cursor_col), (0, 0));
    state.move_right();
    assert_eq!(state.cursor_col, 1);
    state.move_left();
    assert_eq!(state.cursor_col, 0);
    state.move_down();
    state.move_up();
    assert_eq!(state.cursor_row, 0);
    state.move_to_end_of_row();
    assert_eq!(state.cursor_col, 2);
    state.move_right();
    assert_eq!(state.cursor_col, 2);
    state.move_to_bottom();
    assert_eq!(state.cursor_row, 4);
    state.move_down();
    assert_eq!(state.cursor_row, 4);
    state.move_to_start_of_row();
    state.move_to_top();
    assert_eq!((state.cursor_row, state.cursor_col), (0, 0));
}

#[test]
fn page_steps_are_clamped() {
    let mut state = session(25);
    state.page_down(10);
    assert_eq!(state.cursor_row, 10);
    state.page_down(10);
    assert_eq!(state.cursor_row, 20);
    state.page_down(10);
    assert_eq!(state.cursor_row, 24);
    state.page_up(10);
    assert_eq!(state.cursor_row, 14);
    state.page_up(10);
    state.page_up(10);
    assert_eq!(state.cursor_row, 0);
}

#[test]
fn update_scroll_keeps_cursor_in_viewport_and_is_idempotent() {
    let mut state = session(100);
    state.cursor_row = 57;
    state.update_scroll(20);
    assert_eq!(state.scroll_offset, 38);
    state.update_scroll(20);
    assert_eq!(state.scroll_offset, 38);
    state.cursor_row = 10;
    state.update_scroll(20);
    assert_eq!(state.scroll_offset, 10);
    state.cursor_row = 29;
    state.update_scroll(20);
    assert_eq!(state.scroll_offset, 10);
    state.cursor_row = 30;
    state.update_scroll(20);
    assert_eq!(state.scroll_offset, 11);
    state.update_scroll(0);
    assert_eq!(state.scroll_offset, 30);
}

#[test]
fn move_up_takes_the_viewport_along() {
    let mut state = session(100);
    state.cursor_row = 5;
    state.scroll_offset = 5;
    state.move_up();
    assert_eq!((state.cursor_row, state.scroll_offset), (4, 4));
}

#[test]
fn jump_by_row_number() {
    let mut state = session(10);
    state.cursor_col = 2;
    jump(&mut state, "5");
    assert_eq!((state.cursor_row, state.cursor_col), (4, 2));
    assert_eq!(feedback(&state), "Jumped to row 5");
    assert_eq!(state.copy_feedback.as_ref().unwrap().1, 7);
}

#[test]
fn jump_by_cell_address() {
    let mut state = session(10);
    jump(&mut state, "B3");
    assert_eq!((state.cursor_row, state.cursor_col), (2, 1));
    assert_eq!(feedback(&state), "Jumped to B3");
    jump(&mut state, " c1 ");
    assert_eq!((state.cursor_row, state.cursor_col), (0, 2));
    assert_eq!(feedback(&state), "Jumped to C1");
}

#[test]
fn jump_by_row_and_column() {
    let mut state = session(10);
    jump(&mut state, "3,2");
    assert_eq!((state.cursor_row, state.cursor_col), (2, 1));
    assert_eq!(feedback(&state), "Jumped to row 3, col 2");
    jump(&mut state, " 4 , 1 ");
    assert_eq!((state.cursor_row, state.cursor_col), (3, 0));
}

#[test]
fn jump_rejections_leave_the_cursor() {
    let mut state = session(10);
    jump(&mut state, "3,2");
    jump(&mut state, "0");
    assert_eq!((state.cursor_row, state.cursor_col), (2, 1));
    assert_eq!(feedback(&state), "Invalid row: 0 (max: 10)");
    jump(&mut state, "A0");
    assert_eq!((state.cursor_row, state.cursor_col), (2, 1));
    jump(&mut state, "999999");
    assert_eq!((state.cursor_row, state.cursor_col), (2, 1));
    assert_eq!(feedback(&state), "Invalid row: 999999 (max: 10)");
    jump(&mut state, "Z1");
    assert_eq!(feedback(&state), "Cell address out of bounds: Z1");
    jump(&mut state, "11,1");
    assert_eq!(feedback(&state), "Invalid row/column number");
    jump(&mut state, "1,x");
    assert_eq!(feedback(&state), "Invalid format. Use: row number, cell (A5), or row,col");
    jump(&mut state, "what");
    assert_eq!(feedback(&state), "Invalid format. Use: row number, cell (A5), or row,col");
    assert_eq!((state.cursor_row, state.cursor_col), (2, 1));
}

#[test]
fn jump_with_empty_input_only_leaves_the_mode() {
    let mut state = session(10);
    state.handle_event(press(KeyCode::Char('g'), KeyModifiers::control()), 0);
    state.handle_event(press(KeyCode::Enter, KeyModifiers::empty()), 0);
    assert!(!state.jump_mode);
    assert!(state.copy_feedback.is_none());
}

#[test]
fn jump_input_is_edited_and_cancelled() {
    let mut state = session(10);
    state.handle_event(press(KeyCode::Char('g'), KeyModifiers::control()), 0);
    type_text(&mut state, "12");
    state.handle_event(press(KeyCode::Backspace, KeyModifiers::empty()), 0);
    assert_eq!(state.jump_input, "1");
    state.handle_event(press(KeyCode::Esc, KeyModifiers::empty()), 0);
    assert!(!state.jump_mode);
    assert_eq!(state.jump_input, "");
    assert_eq!(state.cursor_row, 0);
}

#[test]
fn search_finds_matches_in_scan_order() {
    let body = vec![
        vec![text("apple"), text("Banana")],
        vec![text("cherry"), text("pineAPPLE")],
        vec![text("APPLE pie"), text("apple")],
    ];
    let sheet = LazySheetData::from_range_with_formulas(range_of(&["A", "B"], body), None);
    let mut state = TuiState::new(vec!["S".to_string()], "S", sheet, Config::default());
    state.handle_event(key('/'), 0);
    assert!(state.search_mode);
    type_text(&mut state, "Apple");
    assert_eq!(state.search_matches, vec![(0, 0), (1, 1), (2, 0), (2, 1)]);
    assert_eq!(state.current_match_index, Some(0));
    assert_eq!((state.cursor_row, state.cursor_col), (0, 0));
    state.handle_event(press(KeyCode::Enter, KeyModifiers::empty()), 0);
    assert!(!state.search_mode);
    assert_eq!(state.search_matches.len(), 4);
    let start = state.current_match_index;
    for _ in 0..state.search_matches.len() {
        state.handle_event(key('n'), 0);
    }
    assert_eq!(state.current_match_index, start);
    state.handle_event(key('n'), 0);
    assert_eq!((state.cursor_row, state.cursor_col), (1, 1));
    state.handle_event(press(KeyCode::Char('N'), KeyModifiers::shift()), 0);
    state.handle_event(press(KeyCode::Char('N'), KeyModifiers::shift()), 0);
    assert_eq!(state.current_match_index, Some(3));
    assert_eq!((state.cursor_row, state.cursor_col), (2, 1));
    state.handle_event(press(KeyCode::Esc, KeyModifiers::empty()), 0);
    assert!(state.search_matches.is_empty());
    assert_eq!(state.search_query, "");
    assert!(!state.should_quit);
    state.handle_event(press(KeyCode::Esc, KeyModifiers::empty()), 0);
    assert!(state.should_quit);
}

#[test]
fn search_without_match_leaves_the_cursor() {
    let mut state = session(5);
    state.cursor_row = 3;
    state.handle_event(key('/'), 0);
    type_text(&mut state, "zzz");
    assert!(state.search_matches.is_empty());
    assert_eq!(state.current_match_index, None);
    assert_eq!(state.cursor_row, 3);
    state.handle_event(press(KeyCode::Backspace, KeyModifiers::empty()), 0);
    state.handle_event(press(KeyCode::Backspace, KeyModifiers::empty()), 0);
    state.handle_event(press(KeyCode::Backspace, KeyModifiers::empty()), 0);
    assert_eq!(state.search_query, "");
    assert!(state.search_matches.is_empty());
    state.handle_event(press(KeyCode::Esc, KeyModifiers::empty()), 0);
    assert!(!state.search_mode);
}

#[test]
fn search_on_a_windowed_sheet_scans_every_row() {
    let mut state = session(2600);
    state.handle_event(key('/'), 0);
    type_text(&mut state, "row1234");
    assert_eq!(state.search_matches, vec![(1234, 1)]);
    assert_eq!((state.cursor_row, state.cursor_col), (1234, 1));
    assert!(state.progress.is_none());
    state.handle_event(press(KeyCode::Backspace, KeyModifiers::empty()), 0);
    assert_eq!(state.search_matches, vec![(123, 1), (1230, 1), (1231, 1), (1232, 1), (1233, 1),
        (1234, 1), (1235, 1), (1236, 1), (1237, 1), (1238, 1), (1239, 1)]);
    state.handle_event(press(KeyCode::Backspace, KeyModifiers::empty()), 0);
    state.handle_event(press(KeyCode::Backspace, KeyModifiers::empty()), 0);
    state.handle_event(press(KeyCode::Backspace, KeyModifiers::empty()), 0);
    assert_eq!(state.search_query, "row");
    assert_eq!(state.search_matches.len(), 2600);
    let sorted = state.search_matches.windows(2).all(|w| w[0] < w[1]);
    assert!(sorted);
}

#[test]
fn search_matches_display_text_with_separators() {
    let body = vec![vec![CellValue::Int(1234567), CellValue::Bool(true)]];
    let sheet = LazySheetData::from_range_with_formulas(range_of(&["A", "B"], body), None);
    let mut state = TuiState::new(vec!["S".to_string()], "S", sheet, Config::default());
    state.handle_event(key('/'), 0);
    type_text(&mut state, "1,234");
    assert_eq!(state.search_matches, vec![(0, 0)]);
    state.handle_event(press(KeyCode::Esc, KeyModifiers::empty()), 0);
    state.handle_event(key('/'), 0);
    type_text(&mut state, "TRUE");
    assert_eq!(state.search_matches, vec![(0, 1)]);
}

#[test]
fn overlays_swallow_one_key() {
    let mut state = session(5);
    state.handle_event(press(KeyCode::Char('?'), KeyModifiers::shift()), 0);
    assert!(state.show_help);
    state.handle_event(key('q'), 0);
    assert!(!state.show_help);
    assert!(!state.should_quit);
    state.handle_event(press(KeyCode::Enter, KeyModifiers::empty()), 0);
    assert!(state.show_cell_detail);
    state.handle_event(press(KeyCode::Down, KeyModifiers::empty()), 0);
    assert!(!state.show_cell_detail);
    assert_eq!(state.cursor_row, 0);
    state.handle_event(key('q'), 0);
    assert!(state.should_quit);
}

#[test]
fn only_key_presses_count_and_modifiers_must_be_equal() {
    let mut state = session(5);
    let release = Event::Key(KeyEvent {
        code: KeyCode::Char('q'),
        modifiers: KeyModifiers::empty(),
        kind: KeyEventKind::Release,
    });
    state.handle_event(release, 0);
    state.handle_event(Event::Other, 0);
    state.handle_event(press(KeyCode::Char('q'), KeyModifiers::control()), 0);
    state.handle_event(press(KeyCode::Char('g'), KeyModifiers::control().union(KeyModifiers::shift())), 0);
    assert!(!state.should_quit);
    assert!(!state.jump_mode);
    state.handle_event(press(KeyCode::Down, KeyModifiers::empty()), 0);
    state.handle_event(press(KeyCode::Right, KeyModifiers::empty()), 0);
    state.handle_event(press(KeyCode::PageDown, KeyModifiers::empty()), 0);
    assert_eq!((state.cursor_row, state.cursor_col), (4, 1));
    state.handle_event(press(KeyCode::Home, KeyModifiers::control()), 0);
    state.handle_event(press(KeyCode::End, KeyModifiers::empty()), 0);
    assert_eq!((state.cursor_row, state.cursor_col), (0, 2));
    state.handle_event(key('t'), 0);
    assert_eq!(state.current_theme, Theme::Dracula);
}

#[test]
fn sheet_switching_end_to_end() {
    let mut state = session(10);
    state.cursor_row = 4;
    state.handle_event(key('/'), 0);
    type_text(&mut state, "row");
    state.handle_event(press(KeyCode::Enter, KeyModifiers::empty()), 0);
    assert!(!state.search_matches.is_empty());
    let tab = press(KeyCode::Tab, KeyModifiers::empty());
    let back = press(KeyCode::Tab, KeyModifiers::shift());
    for (event, expected) in [(tab, 1usize), (tab, 2), (back, 1)] {
        match state.handle_event(event, 0) {
            Action::LoadSheet(index) => {
                assert_eq!(index, expected);
                state.load_current_sheet(numbered_sheet(3 + index));
            }
            _ => panic!("a sheet should be asked for"),
        }
    }
    assert_eq!(state.current_sheet_index, 1);
    assert_eq!(state.current_sheet_name(), "Two");
    assert_eq!((state.cursor_row, state.cursor_col, state.scroll_offset), (0, 0, 0));
    assert!(state.search_matches.is_empty());
    assert_eq!(state.search_query, "");
    assert_eq!(state.current_match_index, None);
    assert_eq!(state.sheet_data.height(), 4);
}

#[test]
fn sheet_switching_wraps_round_and_back_tab_goes_back() {
    let mut state = session(3);
    match state.handle_event(press(KeyCode::BackTab, KeyModifiers::shift()), 0) {
        Action::LoadSheet(index) => assert_eq!(index, 2),
        _ => panic!("a sheet should be asked for"),
    }
    match state.handle_event(press(KeyCode::Tab, KeyModifiers::empty()), 0) {
        Action::LoadSheet(index) => assert_eq!(index, 0),
        _ => panic!("a sheet should be asked for"),
    }
    let mut single =
        TuiState::new(vec!["Only".to_string()], "Only", numbered_sheet(3), Config::default());
    assert!(matches!(
        single.handle_event(press(KeyCode::Tab, KeyModifiers::empty()), 0),
        Action::Nothing
    ));
    assert_eq!(single.current_sheet_index, 0);
}

#[test]
fn copy_cell_and_row_hand_out_raw_text() {
    let body = vec![vec![CellValue::Int(1234567), text("a\tb"), text("say \"hi\""), text("plain")]];
    let sheet = LazySheetData::from_range_with_formulas(range_of(&["A", "B", "C", "D"], body), None);
    let mut state = TuiState::new(vec!["S".to_string()], "S", sheet, Config::default());
    match state.handle_event(key('c'), 0) {
        Action::CopyCell(t) => assert_eq!(t, "1234567"),
        _ => panic!("a copy should be asked for"),
    }
    state.cell_copy_done(ClipboardOutcome::Copied, 5);
    assert_eq!(feedback(&state), "Copied cell A1");
    match state.handle_event(press(KeyCode::Char('C'), KeyModifiers::shift()), 0) {
        Action::CopyRow(t) => assert_eq!(t, "1234567\t\"a\tb\"\t\"say \"\"hi\"\"\"\tplain"),
        _ => panic!("a copy should be asked for"),
    }
    state.row_copy_done(ClipboardOutcome::Copied, 5);
    assert_eq!(feedback(&state), "Copied row 1 (4 cells)");
    state.row_copy_done(ClipboardOutcome::SetFailed("busy".to_string()), 5);
    assert_eq!(feedback(&state), "Copy failed: busy");
    state.cell_copy_done(ClipboardOutcome::Unavailable("none".to_string()), 5);
    assert_eq!(feedback(&state), "Clipboard error: none");
}

#[test]
fn feedback_expires_after_two_seconds() {
    let mut state = session(3);
    state.cell_copy_done(ClipboardOutcome::Copied, 1000);
    assert_eq!(state.current_feedback(1500).as_deref(), Some("Copied cell A1"));
    assert_eq!(state.current_feedback(2999).as_deref(), Some("Copied cell A1"));
    assert_eq!(state.current_feedback(3000), None);
    assert!(state.copy_feedback.is_none());
}

#[test]
fn vim_profile_moves_with_letters() {
    let mut config = Config::default();
    config.keybindings.profile = "vim".to_string();
    let mut state = TuiState::new(vec!["S".to_string()], "S", numbered_sheet(5), config);
    state.handle_event(key('j'), 0);
    state.handle_event(key('l'), 0);
    assert_eq!((state.cursor_row, state.cursor_col), (1, 1));
    state.handle_event(press(KeyCode::Char('G'), KeyModifiers::shift()), 0);
    assert_eq!(state.cursor_row, 4);
    state.handle_event(key('g'), 0);
    assert_eq!(state.cursor_row, 0);
}

#[test]
fn jump_to_a_column_of_two_letters() {
    let header: Vec<String> = (0..30).map(|c| format!("H{c}")).collect();
    let body: Vec<Vec<CellValue>> =
        (0..4).map(|r| (0..30).map(|c| CellValue::Int((r * 30 + c) as i64)).collect()).collect();
    let sheet = LazySheetData::from_range_with_formulas(
        DataRange { height: 5, width: 30, header, body },
        None,
    );
    let mut state = TuiState::new(vec!["S".to_string()], "S", sheet, Config::default());
    jump(&mut state, "AA1");
    assert_eq!((state.cursor_row, state.cursor_col), (0, 26));
    assert_eq!(feedback(&state), "Jumped to AA1");
    jump(&mut state, "aa4");
    assert_eq!((state.cursor_row, state.cursor_col), (3, 26));
    assert_eq!(feedback(&state), "Jumped to AA4");
    jump(&mut state, "AE1");
    assert_eq!((state.cursor_row, state.cursor_col), (3, 26));
    assert_eq!(feedback(&state), "Cell address out of bounds: AE1");
}

#[test]
fn integer_cells_are_read_from_their_raw_text() {
    for i in [0i64, 17, -17, i64::MAX, i64::MIN] {
        let raw = CellValue::Int(i).to_raw_string();
        assert!(matches!(CellValue::parse_int(&raw), Some(CellValue::Int(n)) if n == i));
    }
    assert!(CellValue::parse_int("9223372036854775808").is_none());
    assert!(CellValue::parse_int("-9223372036854775809").is_none());
    assert!(matches!(CellValue::parse_int("+5"), Some(CellValue::Int(5))));
    assert!(CellValue::parse_int("1,000").is_none());
    assert!(CellValue::parse_int("-").is_none());
    assert!(CellValue::parse_int("").is_none());
}

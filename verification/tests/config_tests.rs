use xleak::config::{
    get_default_keybinding, get_vim_keybinding, parse_key_string, Config, EXAMPLE_TOML,
};
use xleak::keys::{KeyCode, KeyModifiers};
use xleak::tui::{Theme, TuiState};

/// The configuration that a TOML text writes: what the text leaves out keeps
/// its default.
fn config_from_toml(text: &str) -> Result<Config, String> {
    let table: toml::Table = text.parse().map_err(|e| format!("{e}"))?;
    let mut config = Config::default();
    if let Some(theme) = table.get("theme").and_then(|t| t.as_table()) {
        if let Some(name) = theme.get("default").and_then(|v| v.as_str()) {
            config.theme.default = name.to_string();
        }
    }
    if let Some(ui) = table.get("ui").and_then(|t| t.as_table()) {
        if let Some(n) = ui.get("max_rows").and_then(|v| v.as_integer()) {
            config.ui.max_rows = n as usize;
        }
        if let Some(n) = ui.get("column_width").and_then(|v| v.as_integer()) {
            config.ui.column_width = n as usize;
        }
    }
    if let Some(keys) = table.get("keybindings").and_then(|t| t.as_table()) {
        if let Some(profile) = keys.get("profile").and_then(|v| v.as_str()) {
            config.keybindings.profile = profile.to_string();
        }
        if let Some(custom) = keys.get("custom").and_then(|t| t.as_table()) {
            for (action, key) in custom {
                if let Some(key) = key.as_str() {
                    config.set_custom_binding(action.clone(), key.to_string());
                }
            }
        }
    }
    Ok(config)
}

#[test]
fn test_parse_key_string() {
    assert_eq!(
        parse_key_string("q"),
        Some((KeyCode::Char('q'), KeyModifiers::empty()))
    );
    assert_eq!(
        parse_key_string("Ctrl+g"),
        Some((KeyCode::Char('g'), KeyModifiers::control()))
    );
    assert_eq!(
        parse_key_string("Enter"),
        Some((KeyCode::Enter, KeyModifiers::empty()))
    );
    assert_eq!(
        parse_key_string("Shift+Tab"),
        Some((KeyCode::Tab, KeyModifiers::shift()))
    );
}

#[test]
fn test_default_config() {
    let config = Config::default();
    assert_eq!(config.theme.default, "Default");
    assert_eq!(config.ui.max_rows, 50);
    assert_eq!(config.keybindings.profile, "default");
}

#[test]
fn test_vim_keybindings() {
    assert_eq!(
        get_vim_keybinding("up"),
        Some((KeyCode::Char('k'), KeyModifiers::empty()))
    );
    assert_eq!(
        get_vim_keybinding("down"),
        Some((KeyCode::Char('j'), KeyModifiers::empty()))
    );
}

#[test]
fn test_toml_parsing_unix_line_endings() {
    let config_str = "[theme]\ndefault = \"Dracula\"\n\n[ui]\nmax_rows = 100\n\n[keybindings]\nprofile = \"vim\"";
    let config: Config = config_from_toml(config_str).expect("Failed to parse TOML");
    assert_eq!(config.theme.default, "Dracula");
    assert_eq!(config.ui.max_rows, 100);
    assert_eq!(config.keybindings.profile, "vim");
}

#[test]
fn test_toml_parsing_windows_line_endings() {
    let config_str = "[theme]\r\ndefault = \"Nord\"\r\n\r\n[ui]\r\nmax_rows = 200\r\n\r\n[keybindings]\r\nprofile = \"default\"";
    let config: Config = config_from_toml(config_str).expect("Failed to parse TOML");
    assert_eq!(config.theme.default, "Nord");
    assert_eq!(config.ui.max_rows, 200);
    assert_eq!(config.keybindings.profile, "default");
}

#[test]
fn test_toml_parsing_mixed_line_endings() {
    let config_str = "[theme]\r\ndefault = \"GitHub Dark\"\n\n[ui]\r\nmax_rows = 75\n[keybindings]\r\nprofile = \"vim\"";
    let config: Config = config_from_toml(config_str).expect("Failed to parse TOML");
    assert_eq!(config.theme.default, "GitHub Dark");
    assert_eq!(config.ui.max_rows, 75);
    assert_eq!(config.keybindings.profile, "vim");
}

#[test]
fn test_theme_name_case_insensitive() {
    let config_str = "[theme]\ndefault = \"dracula\"";
    let config: Config = config_from_toml(config_str).unwrap();
    assert_eq!(config.theme.default, "dracula");
    assert_eq!(TuiState::parse_theme_name(&config.theme.default), Theme::Dracula);

    let config_str = "[theme]\ndefault = \"DRACULA\"";
    let config: Config = config_from_toml(config_str).unwrap();
    assert_eq!(config.theme.default, "DRACULA");
    assert_eq!(TuiState::parse_theme_name(&config.theme.default), Theme::Dracula);

    let config_str = "[theme]\ndefault = \"Dracula\"";
    let config: Config = config_from_toml(config_str).unwrap();
    assert_eq!(config.theme.default, "Dracula");
    assert_eq!(TuiState::parse_theme_name(&config.theme.default), Theme::Dracula);
}

#[test]
fn test_theme_name_with_spaces() {
    let config_str = "[theme]\ndefault = \"Solarized Dark\"";
    let config: Config = config_from_toml(config_str).unwrap();
    assert_eq!(config.theme.default, "Solarized Dark");
    assert_eq!(TuiState::parse_theme_name(&config.theme.default), Theme::SolarizedDark);

    let config_str = "[theme]\ndefault = \"GitHub Dark\"";
    let config: Config = config_from_toml(config_str).unwrap();
    assert_eq!(config.theme.default, "GitHub Dark");
    assert_eq!(TuiState::parse_theme_name(&config.theme.default), Theme::GitHubDark);
}

#[test]
fn test_invalid_theme_stored_as_is() {
    let config_str = "[theme]\ndefault = \"NonexistentTheme\"";
    let config: Config = config_from_toml(config_str).unwrap();
    assert_eq!(config.theme.default, "NonexistentTheme");
    assert_eq!(TuiState::parse_theme_name(&config.theme.default), Theme::Default);
}

#[test]
fn test_custom_keybindings_override_profile() {
    let config_str = r#"
[keybindings]
profile = "default"

[keybindings.custom]
quit = "x"
search = "?"
"#;
    let config: Config = config_from_toml(config_str).unwrap();

    assert_eq!(
        config.get_keybinding("quit"),
        Some((KeyCode::Char('x'), KeyModifiers::empty()))
    );
    assert_eq!(
        config.get_keybinding("search"),
        Some((KeyCode::Char('?'), KeyModifiers::empty()))
    );

    assert_eq!(
        config.get_keybinding("help"),
        Some((KeyCode::Char('?'), KeyModifiers::shift()))
    );
}

#[test]
fn test_vim_profile_with_custom_overrides() {
    let config_str = r#"
[keybindings]
profile = "vim"

[keybindings.custom]
quit = "x"
page_up = "Ctrl+b"
"#;
    let config: Config = config_from_toml(config_str).unwrap();

    assert_eq!(
        config.get_keybinding("quit"),
        Some((KeyCode::Char('x'), KeyModifiers::empty()))
    );
    assert_eq!(
        config.get_keybinding("page_up"),
        Some((KeyCode::Char('b'), KeyModifiers::control()))
    );

    assert_eq!(
        config.get_keybinding("up"),
        Some((KeyCode::Char('k'), KeyModifiers::empty()))
    );
    assert_eq!(
        config.get_keybinding("down"),
        Some((KeyCode::Char('j'), KeyModifiers::empty()))
    );
}

#[test]
fn test_get_keybinding_returns_none_for_unknown_action() {
    let config = Config::default();
    assert_eq!(config.get_keybinding("nonexistent_action"), None);
    assert_eq!(config.get_keybinding(""), None);
    assert_eq!(config.get_keybinding("random_string_12345"), None);
}

#[test]
fn test_parse_key_multiple_modifiers() {
    assert_eq!(
        parse_key_string("Ctrl+Shift+Tab"),
        Some((KeyCode::Tab, KeyModifiers::control().union(KeyModifiers::shift())))
    );

    assert_eq!(
        parse_key_string("Ctrl+Alt+g"),
        Some((
            KeyCode::Char('g'),
            KeyModifiers::control().union(KeyModifiers::alt())
        ))
    );
}

#[test]
fn test_parse_key_case_insensitive_modifiers() {
    assert_eq!(
        parse_key_string("ctrl+g"),
        Some((KeyCode::Char('g'), KeyModifiers::control()))
    );
    assert_eq!(
        parse_key_string("CTRL+g"),
        Some((KeyCode::Char('g'), KeyModifiers::control()))
    );
    assert_eq!(
        parse_key_string("Ctrl+g"),
        Some((KeyCode::Char('g'), KeyModifiers::control()))
    );

    assert_eq!(
        parse_key_string("shift+tab"),
        Some((KeyCode::Tab, KeyModifiers::shift()))
    );
    assert_eq!(
        parse_key_string("SHIFT+TAB"),
        Some((KeyCode::Tab, KeyModifiers::shift()))
    );
}

#[test]
fn test_parse_key_invalid_strings() {
    assert_eq!(parse_key_string(""), None);
    assert_eq!(parse_key_string("InvalidKey"), None);
    assert_eq!(parse_key_string("Ctrl+"), None);
    assert_eq!(parse_key_string("+g"), None);
    assert_eq!(parse_key_string("Ctrl+InvalidKey"), None);
    assert_eq!(parse_key_string("Unknown+g"), None);
}

#[test]
fn test_vim_profile_falls_back_to_default() {
    let config_str = "[keybindings]\nprofile = \"vim\"";
    let config: Config = config_from_toml(config_str).unwrap();

    assert_eq!(
        config.get_keybinding("up"),
        Some((KeyCode::Char('k'), KeyModifiers::empty()))
    );

    assert_eq!(
        config.get_keybinding("help"),
        Some((KeyCode::Char('?'), KeyModifiers::shift()))
    );
    assert_eq!(
        config.get_keybinding("theme_toggle"),
        Some((KeyCode::Char('t'), KeyModifiers::empty()))
    );
    assert_eq!(
        config.get_keybinding("search"),
        Some((KeyCode::Char('/'), KeyModifiers::empty()))
    );
}

#[test]
fn key_names_are_read_without_case() {
    let plain = KeyModifiers::empty();
    for (word, code) in [
        ("enter", KeyCode::Enter),
        ("ESC", KeyCode::Esc),
        ("Escape", KeyCode::Esc),
        ("backtab", KeyCode::BackTab),
        ("Backspace", KeyCode::Backspace),
        ("Delete", KeyCode::Delete),
        ("del", KeyCode::Delete),
        ("Insert", KeyCode::Insert),
        ("INS", KeyCode::Insert),
        ("home", KeyCode::Home),
        ("End", KeyCode::End),
        ("PageUp", KeyCode::PageUp),
        ("pgup", KeyCode::PageUp),
        ("PageDown", KeyCode::PageDown),
        ("PgDn", KeyCode::PageDown),
        ("UP", KeyCode::Up),
        ("down", KeyCode::Down),
        ("Left", KeyCode::Left),
        ("right", KeyCode::Right),
        ("$", KeyCode::Char('$')),
    ] {
        assert_eq!(parse_key_string(word), Some((code, plain)));
    }
    assert_eq!(
        parse_key_string("Control+Alt+Shift+x"),
        Some((KeyCode::Char('x'), KeyModifiers::from_bits(7)))
    );
    assert_eq!(parse_key_string("é"), None);
    assert_eq!(parse_key_string("ab"), None);
}

#[test]
fn default_profile_binds_every_action() {
    let plain = KeyModifiers::empty();
    let shift = KeyModifiers::shift();
    let control = KeyModifiers::control();
    for (action, binding) in [
        ("quit", (KeyCode::Char('q'), plain)),
        ("help", (KeyCode::Char('?'), shift)),
        ("theme_toggle", (KeyCode::Char('t'), plain)),
        ("search", (KeyCode::Char('/'), plain)),
        ("next_match", (KeyCode::Char('n'), plain)),
        ("prev_match", (KeyCode::Char('N'), shift)),
        ("copy_cell", (KeyCode::Char('c'), plain)),
        ("copy_row", (KeyCode::Char('C'), shift)),
        ("jump", (KeyCode::Char('g'), control)),
        ("show_cell_detail", (KeyCode::Enter, plain)),
        ("next_sheet", (KeyCode::Tab, plain)),
        ("prev_sheet", (KeyCode::Tab, shift)),
        ("up", (KeyCode::Up, plain)),
        ("down", (KeyCode::Down, plain)),
        ("left", (KeyCode::Left, plain)),
        ("right", (KeyCode::Right, plain)),
        ("page_up", (KeyCode::PageUp, plain)),
        ("page_down", (KeyCode::PageDown, plain)),
        ("jump_to_top", (KeyCode::Home, control)),
        ("jump_to_bottom", (KeyCode::End, control)),
        ("jump_to_row_start", (KeyCode::Home, plain)),
        ("jump_to_row_end", (KeyCode::End, plain)),
    ] {
        assert_eq!(get_default_keybinding(action), Some(binding));
    }
    assert_eq!(get_default_keybinding("Quit"), None);
    for (action, binding) in [
        ("left", (KeyCode::Char('h'), plain)),
        ("right", (KeyCode::Char('l'), plain)),
        ("page_up", (KeyCode::Char('u'), control)),
        ("page_down", (KeyCode::Char('d'), control)),
        ("jump_to_top", (KeyCode::Char('g'), plain)),
        ("jump_to_bottom", (KeyCode::Char('G'), shift)),
        ("jump_to_row_start", (KeyCode::Char('0'), plain)),
        ("jump_to_row_end", (KeyCode::Char('$'), shift)),
        ("quit", (KeyCode::Char('q'), plain)),
        ("copy_cell", (KeyCode::Char('y'), plain)),
        ("copy_row", (KeyCode::Char('Y'), shift)),
        ("jump", (KeyCode::Char('g'), control)),
    ] {
        assert_eq!(get_vim_keybinding(action), Some(binding));
    }
}

#[test]
fn custom_binding_that_cannot_be_read_binds_nothing() {
    let mut config = Config::default();
    config.set_custom_binding("quit".to_string(), "NoSuchKey".to_string());
    assert_eq!(config.get_keybinding("quit"), None);
    config.set_custom_binding("quit".to_string(), "Ctrl+q".to_string());
    assert_eq!(config.get_keybinding("quit"), Some((KeyCode::Char('q'), KeyModifiers::control())));
}

#[test]
fn example_configuration_reads_as_the_defaults() {
    assert_eq!(Config::example_toml(), EXAMPLE_TOML);
    let config = config_from_toml(&Config::example_toml()).expect("the example is valid TOML");
    assert_eq!(config.theme.default, "Default");
    assert_eq!(config.ui.max_rows, 50);
    assert_eq!(config.ui.column_width, 30);
    assert_eq!(config.keybindings.profile, "default");
    assert_eq!(config.get_keybinding("quit"), Some((KeyCode::Char('q'), KeyModifiers::empty())));
}

#[test]
fn custom_bindings_are_kept_once_per_action() {
    let mut config = Config::default();
    assert!(config.keybindings.custom.is_empty());
    config.set_custom_binding("quit".to_string(), "x".to_string());
    config.set_custom_binding("help".to_string(), "F".to_string());
    config.set_custom_binding("quit".to_string(), "Alt+z".to_string());
    assert_eq!(config.keybindings.custom.len(), 2);
    assert_eq!(config.get_keybinding("quit"), Some((KeyCode::Char('z'), KeyModifiers::alt())));
    assert_eq!(config.get_keybinding("help"), Some((KeyCode::Char('F'), KeyModifiers::empty())));
    assert_eq!(config.get_keybinding("search"), Some((KeyCode::Char('/'), KeyModifiers::empty())));
    config.keybindings.custom.push(("help".to_string(), "h".to_string()));
    assert_eq!(config.get_keybinding("help"), Some((KeyCode::Char('F'), KeyModifiers::empty())));
}

//! Configuration and the keybinding resolver: from the name of an action to
//! the key and the modifier keys bound to it.

use vstd::prelude::*;
use vstd::string::StringExecFns;
use crate::keys::{KeyCode, KeyModifiers, ALT_BIT, CONTROL_BIT, SHIFT_BIT};
use crate::text::{
    chars_of, eq_ignore_ascii_case, find_char, first_of, same_ignoring_ascii_case, same_text,
    str_is,
};

verus! {

/// Application configuration.
#[derive(Debug, Clone)]
pub struct Config {
    pub theme: ThemeConfig,
    pub ui: UiConfig,
    pub keybindings: KeybindingsConfig,
}

/// Theme configuration.
#[derive(Debug, Clone)]
pub struct ThemeConfig {
    /// The theme to start with.
    pub default: String,
}

/// Settings of the display outside the interactive viewer.
#[derive(Debug, Clone)]
pub struct UiConfig {
    /// The most rows to show.
    pub max_rows: usize,
    /// The most characters to show of a column.
    pub column_width: usize,
}

/// Keybindings configuration.
#[derive(Debug, Clone)]
pub struct KeybindingsConfig {
    /// The profile of bindings: "default" or "vim".
    pub profile: String,
    /// Bindings of single actions, each an action and its key string. They go
    /// before the profile's; of two for one action the first counts.
    pub custom: Vec<(String, String)>,
}

/// An example of a configuration file.
pub const EXAMPLE_TOML: &'static str = "# xleak configuration file\n# Location: $XDG_CONFIG_HOME/xleak/config.toml (usually ~/.config/xleak/config.toml)\n\n[theme]\n# Default theme to use on startup\n# Options: \"Default\", \"Dracula\", \"Solarized Dark\", \"Solarized Light\", \"GitHub Dark\", \"Nord\"\ndefault = \"Default\"\n\n[ui]\n# Default maximum rows to display in non-interactive mode (0 = all)\nmax_rows = 50\n# Default maximum column width in characters\ncolumn_width = 30\n\n[keybindings]\n# Keybinding profile: \"default\" or \"vim\"\nprofile = \"default\"\n\n# Custom keybindings (optional - overrides profile)\n# Uncomment and modify to customize individual keys\n# [keybindings.custom]\n# quit = \"q\"\n# help = \"?\"\n# theme_toggle = \"t\"\n# search = \"/\"\n# next_match = \"n\"\n# prev_match = \"N\"\n# copy_cell = \"c\"\n# copy_row = \"C\"\n# jump = \"Ctrl+g\"\n# show_cell_detail = \"Enter\"\n\n# VIM-style navigation (when profile = \"vim\")\n# up = \"k\"\n# down = \"j\"\n# left = \"h\"\n# right = \"l\"\n# page_up = \"Ctrl+u\"\n# page_down = \"Ctrl+d\"\n# jump_to_top = \"g\"\n# jump_to_bottom = \"G\"\n# jump_to_row_start = \"0\"\n# jump_to_row_end = \"$\"\n";

impl Default for ThemeConfig {
    fn default() -> (r: Self)
        ensures
            r.default@ == "Default"@,
    {
        ThemeConfig { default: String::from_str("Default") }
    }
}

impl Default for UiConfig {
    fn default() -> (r: Self)
        ensures
            r.max_rows == 50,
            r.column_width == 30,
    {
        UiConfig { max_rows: 50, column_width: 30 }
    }
}

impl Default for KeybindingsConfig {
    fn default() -> (r: Self)
        ensures
            r.profile@ == "default"@,
            r.custom@.len() == 0,
    {
        KeybindingsConfig { profile: String::from_str("default"), custom: Vec::new() }
    }
}

impl Default for Config {
    fn default() -> (r: Self)
        ensures
            r.theme.default@ == "Default"@,
            r.ui.max_rows == 50,
            r.ui.column_width == 30,
            r.keybindings.profile@ == "default"@,
            r.keybindings.custom@.len() == 0,
    {
        Config {
            theme: ThemeConfig::default(),
            ui: UiConfig::default(),
            keybindings: KeybindingsConfig::default(),
        }
    }
}

/// The bit of the modifier key that `word` names, whatever the case of its
/// letters.
pub open spec fn modifier_bit(word: Seq<char>) -> Option<u8> {
    if same_ignoring_ascii_case(word, "ctrl"@) || same_ignoring_ascii_case(word, "control"@) {
        Some(CONTROL_BIT)
    } else if same_ignoring_ascii_case(word, "alt"@) {
        Some(ALT_BIT)
    } else if same_ignoring_ascii_case(word, "shift"@) {
        Some(SHIFT_BIT)
    } else {
        None
    }
}

/// The key that `word` names: one of the named keys, whatever the case of its
/// letters, or the key of the one ASCII character that `word` is.
pub open spec fn key_code_of(word: Seq<char>) -> Option<KeyCode> {
    if same_ignoring_ascii_case(word, "enter"@) {
        Some(KeyCode::Enter)
    } else if same_ignoring_ascii_case(word, "esc"@) || same_ignoring_ascii_case(
        word,
        "escape"@,
    ) {
        Some(KeyCode::Esc)
    } else if same_ignoring_ascii_case(word, "tab"@) {
        Some(KeyCode::Tab)
    } else if same_ignoring_ascii_case(word, "backtab"@) {
        Some(KeyCode::BackTab)
    } else if same_ignoring_ascii_case(word, "backspace"@) {
        Some(KeyCode::Backspace)
    } else if same_ignoring_ascii_case(word, "delete"@) || same_ignoring_ascii_case(
        word,
        "del"@,
    ) {
        Some(KeyCode::Delete)
    } else if same_ignoring_ascii_case(word, "insert"@) || same_ignoring_ascii_case(
        word,
        "ins"@,
    ) {
        Some(KeyCode::Insert)
    } else if same_ignoring_ascii_case(word, "home"@) {
        Some(KeyCode::Home)
    } else if same_ignoring_ascii_case(word, "end"@) {
        Some(KeyCode::End)
    } else if same_ignoring_ascii_case(word, "pageup"@) || same_ignoring_ascii_case(
        word,
        "pgup"@,
    ) {
        Some(KeyCode::PageUp)
    } else if same_ignoring_ascii_case(word, "pagedown"@) || same_ignoring_ascii_case(
        word,
        "pgdn"@,
    ) {
        Some(KeyCode::PageDown)
    } else if same_ignoring_ascii_case(word, "up"@) {
        Some(KeyCode::Up)
    } else if same_ignoring_ascii_case(word, "down"@) {
        Some(KeyCode::Down)
    } else if same_ignoring_ascii_case(word, "left"@) {
        Some(KeyCode::Left)
    } else if same_ignoring_ascii_case(word, "right"@) {
        Some(KeyCode::Right)
    } else if word.len() == 1 && (word[0] as u32) < 128 {
        Some(KeyCode::Char(word[0]))
    } else {
        None
    }
}

/// What a key string binds, read from the left with the modifier bits `bits`
/// gathered so far: every word before a plus sign names a modifier key, and
/// the word after the last plus sign names the key.
pub open spec fn key_string_from(s: Seq<char>, bits: u8) -> Option<(KeyCode, KeyModifiers)>
    decreases s.len(),
{
    let cut = first_of(s, '+');
    if 0 <= cut < s.len() {
        match modifier_bit(s.take(cut)) {
            Some(b) => key_string_from(s.skip(cut + 1), bits | b),
            None => None,
        }
    } else {
        match key_code_of(s) {
            Some(code) => Some((code, KeyModifiers { bits })),
            None => None,
        }
    }
}

/// What a key string such as "q", "Ctrl+g" or "Shift+Tab" binds.
pub open spec fn key_string(s: Seq<char>) -> Option<(KeyCode, KeyModifiers)> {
    key_string_from(s, 0)
}

/// The bit of the modifier key that `v[from..to]` names.
fn parse_modifier(v: &Vec<char>, from: usize, to: usize) -> (r: Option<u8>)
    requires
        from <= to <= v.len(),
    ensures
        r == modifier_bit(v@.subrange(from as int, to as int)),
{
    if eq_ignore_ascii_case(v, from, to, "ctrl") || eq_ignore_ascii_case(v, from, to, "control") {
        Some(CONTROL_BIT)
    } else if eq_ignore_ascii_case(v, from, to, "alt") {
        Some(ALT_BIT)
    } else if eq_ignore_ascii_case(v, from, to, "shift") {
        Some(SHIFT_BIT)
    } else {
        None
    }
}

/// The key that `v[from..]` names.
fn parse_key_code(v: &Vec<char>, from: usize) -> (r: Option<KeyCode>)
    requires
        from <= v.len(),
    ensures
        r == key_code_of(v@.skip(from as int)),
{
    let to: usize = v.len();
    if eq_ignore_ascii_case(v, from, to, "enter") {
        Some(KeyCode::Enter)
    } else if eq_ignore_ascii_case(v, from, to, "esc") || eq_ignore_ascii_case(
        v,
        from,
        to,
        "escape",
    ) {
        Some(KeyCode::Esc)
    } else if eq_ignore_ascii_case(v, from, to, "tab") {
        Some(KeyCode::Tab)
    } else if eq_ignore_ascii_case(v, from, to, "backtab") {
        Some(KeyCode::BackTab)
    } else if eq_ignore_ascii_case(v, from, to, "backspace") {
        Some(KeyCode::Backspace)
    } else if eq_ignore_ascii_case(v, from, to, "delete") || eq_ignore_ascii_case(
        v,
        from,
        to,
        "del",
    ) {
        Some(KeyCode::Delete)
    } else if eq_ignore_ascii_case(v, from, to, "insert") || eq_ignore_ascii_case(
        v,
        from,
        to,
        "ins",
    ) {
        Some(KeyCode::Insert)
    } else if eq_ignore_ascii_case(v, from, to, "home") {
        Some(KeyCode::Home)
    } else if eq_ignore_ascii_case(v, from, to, "end") {
        Some(KeyCode::End)
    } else if eq_ignore_ascii_case(v, from, to, "pageup") || eq_ignore_ascii_case(
        v,
        from,
        to,
        "pgup",
    ) {
        Some(KeyCode::PageUp)
    } else if eq_ignore_ascii_case(v, from, to, "pagedown") || eq_ignore_ascii_case(
        v,
        from,
        to,
        "pgdn",
    ) {
        Some(KeyCode::PageDown)
    } else if eq_ignore_ascii_case(v, from, to, "up") {
        Some(KeyCode::Up)
    } else if eq_ignore_ascii_case(v, from, to, "down") {
        Some(KeyCode::Down)
    } else if eq_ignore_ascii_case(v, from, to, "left") {
        Some(KeyCode::Left)
    } else if eq_ignore_ascii_case(v, from, to, "right") {
        Some(KeyCode::Right)
    } else if to - from == 1 && (v[from] as u32) < 128 {
        Some(KeyCode::Char(v[from]))
    } else {
        None
    }
}

/// Reads a key string such as "q", "Ctrl+g" or "Shift+Tab": the key and the
/// modifier keys that it binds, or `None` where a word names neither.
pub fn parse_key_string(s: &str) -> (r: Option<(KeyCode, KeyModifiers)>)
    ensures
        r == key_string(s@),
{
    let v = chars_of(s);
    let mut bits: u8 = 0;
    let mut pos: usize = 0;
    proof {
        assert(v@.skip(0) == v@);
    }
    loop
        invariant
            0 <= pos <= v.len(),
            v@ == s@,
            key_string(s@) == key_string_from(v@.skip(pos as int), bits),
        decreases v.len() - pos,
    {
        let cut: usize = find_char(&v, pos, '+');
        if cut < v.len() {
            proof {
                let rest = v@.skip(pos as int);
                assert(rest.take(cut - pos) == v@.subrange(pos as int, cut as int));
                assert(rest.skip(cut - pos + 1) == v@.skip(cut + 1));
            }
            match parse_modifier(&v, pos, cut) {
                Some(b) => {
                    bits = bits | b;
                    pos = cut + 1;
                },
                None => {
                    return None;
                },
            }
        } else {
            return match parse_key_code(&v, pos) {
                Some(code) => Some((code, KeyModifiers { bits })),
                None => None,
            };
        }
    }
}

/// No modifier key.
pub open spec fn plain() -> KeyModifiers {
    KeyModifiers { bits: 0 }
}

/// The shift key alone.
pub open spec fn shifted() -> KeyModifiers {
    KeyModifiers { bits: SHIFT_BIT }
}

/// The control key alone.
pub open spec fn controlled() -> KeyModifiers {
    KeyModifiers { bits: CONTROL_BIT }
}

/// The binding of an action in the default profile.
pub open spec fn default_binding(action: Seq<char>) -> Option<(KeyCode, KeyModifiers)> {
    if action == "quit"@ {
        Some((KeyCode::Char('q'), plain()))
    } else if action == "help"@ {
        Some((KeyCode::Char('?'), shifted()))
    } else if action == "theme_toggle"@ {
        Some((KeyCode::Char('t'), plain()))
    } else if action == "search"@ {
        Some((KeyCode::Char('/'), plain()))
    } else if action == "next_match"@ {
        Some((KeyCode::Char('n'), plain()))
    } else if action == "prev_match"@ {
        Some((KeyCode::Char('N'), shifted()))
    } else if action == "copy_cell"@ {
        Some((KeyCode::Char('c'), plain()))
    } else if action == "copy_row"@ {
        Some((KeyCode::Char('C'), shifted()))
    } else if action == "jump"@ {
        Some((KeyCode::Char('g'), controlled()))
    } else if action == "show_cell_detail"@ {
        Some((KeyCode::Enter, plain()))
    } else if action == "next_sheet"@ {
        Some((KeyCode::Tab, plain()))
    } else if action == "prev_sheet"@ {
        Some((KeyCode::Tab, shifted()))
    } else if action == "up"@ {
        Some((KeyCode::Up, plain()))
    } else if action == "down"@ {
        Some((KeyCode::Down, plain()))
    } else if action == "left"@ {
        Some((KeyCode::Left, plain()))
    } else if action == "right"@ {
        Some((KeyCode::Right, plain()))
    } else if action == "page_up"@ {
        Some((KeyCode::PageUp, plain()))
    } else if action == "page_down"@ {
        Some((KeyCode::PageDown, plain()))
    } else if action == "jump_to_top"@ {
        Some((KeyCode::Home, controlled()))
    } else if action == "jump_to_bottom"@ {
        Some((KeyCode::End, controlled()))
    } else if action == "jump_to_row_start"@ {
        Some((KeyCode::Home, plain()))
    } else if action == "jump_to_row_end"@ {
        Some((KeyCode::End, plain()))
    } else {
        None
    }
}

/// The binding of an action in the vim profile. An action that the profile
/// does not define has its binding of the default profile.
pub open spec fn vim_binding(action: Seq<char>) -> Option<(KeyCode, KeyModifiers)> {
    if action == "up"@ {
        Some((KeyCode::Char('k'), plain()))
    } else if action == "down"@ {
        Some((KeyCode::Char('j'), plain()))
    } else if action == "left"@ {
        Some((KeyCode::Char('h'), plain()))
    } else if action == "right"@ {
        Some((KeyCode::Char('l'), plain()))
    } else if action == "page_up"@ {
        Some((KeyCode::Char('u'), controlled()))
    } else if action == "page_down"@ {
        Some((KeyCode::Char('d'), controlled()))
    } else if action == "jump_to_top"@ {
        Some((KeyCode::Char('g'), plain()))
    } else if action == "jump_to_bottom"@ {
        Some((KeyCode::Char('G'), shifted()))
    } else if action == "jump_to_row_start"@ {
        Some((KeyCode::Char('0'), plain()))
    } else if action == "jump_to_row_end"@ {
        Some((KeyCode::Char('$'), shifted()))
    } else if action == "quit"@ {
        Some((KeyCode::Char('q'), plain()))
    } else if action == "copy_cell"@ {
        Some((KeyCode::Char('y'), plain()))
    } else if action == "copy_row"@ {
        Some((KeyCode::Char('Y'), shifted()))
    } else {
        default_binding(action)
    }
}

/// The binding of `action` in the default profile.
pub fn get_default_keybinding(action: &str) -> (r: Option<(KeyCode, KeyModifiers)>)
    ensures
        r == default_binding(action@),
{
    let a = chars_of(action);
    let n: usize = a.len();
    proof {
        assert(a@.subrange(0, n as int) == action@);
    }
    let none = KeyModifiers::empty();
    let shift = KeyModifiers::shift();
    let control = KeyModifiers::control();
    if same_text(&a, 0, n, "quit") {
        Some((KeyCode::Char('q'), none))
    } else if same_text(&a, 0, n, "help") {
        Some((KeyCode::Char('?'), shift))
    } else if same_text(&a, 0, n, "theme_toggle") {
        Some((KeyCode::Char('t'), none))
    } else if same_text(&a, 0, n, "search") {
        Some((KeyCode::Char('/'), none))
    } else if same_text(&a, 0, n, "next_match") {
        Some((KeyCode::Char('n'), none))
    } else if same_text(&a, 0, n, "prev_match") {
        Some((KeyCode::Char('N'), shift))
    } else if same_text(&a, 0, n, "copy_cell") {
        Some((KeyCode::Char('c'), none))
    } else if same_text(&a, 0, n, "copy_row") {
        Some((KeyCode::Char('C'), shift))
    } else if same_text(&a, 0, n, "jump") {
        Some((KeyCode::Char('g'), control))
    } else if same_text(&a, 0, n, "show_cell_detail") {
        Some((KeyCode::Enter, none))
    } else if same_text(&a, 0, n, "next_sheet") {
        Some((KeyCode::Tab, none))
    } else if same_text(&a, 0, n, "prev_sheet") {
        Some((KeyCode::Tab, shift))
    } else if same_text(&a, 0, n, "up") {
        Some((KeyCode::Up, none))
    } else if same_text(&a, 0, n, "down") {
        Some((KeyCode::Down, none))
    } else if same_text(&a, 0, n, "left") {
        Some((KeyCode::Left, none))
    } else if same_text(&a, 0, n, "right") {
        Some((KeyCode::Right, none))
    } else if same_text(&a, 0, n, "page_up") {
        Some((KeyCode::PageUp, none))
    } else if same_text(&a, 0, n, "page_down") {
        Some((KeyCode::PageDown, none))
    } else if same_text(&a, 0, n, "jump_to_top") {
        Some((KeyCode::Home, control))
    } else if same_text(&a, 0, n, "jump_to_bottom") {
        Some((KeyCode::End, control))
    } else if same_text(&a, 0, n, "jump_to_row_start") {
        Some((KeyCode::Home, none))
    } else if same_text(&a, 0, n, "jump_to_row_end") {
        Some((KeyCode::End, none))
    } else {
        None
    }
}

/// The binding of `action` in the vim profile.
pub fn get_vim_keybinding(action: &str) -> (r: Option<(KeyCode, KeyModifiers)>)
    ensures
        r == vim_binding(action@),
{
    let a = chars_of(action);
    let n: usize = a.len();
    proof {
        assert(a@.subrange(0, n as int) == action@);
    }
    let none = KeyModifiers::empty();
    let shift = KeyModifiers::shift();
    let control = KeyModifiers::control();
    if same_text(&a, 0, n, "up") {
        Some((KeyCode::Char('k'), none))
    } else if same_text(&a, 0, n, "down") {
        Some((KeyCode::Char('j'), none))
    } else if same_text(&a, 0, n, "left") {
        Some((KeyCode::Char('h'), none))
    } else if same_text(&a, 0, n, "right") {
        Some((KeyCode::Char('l'), none))
    } else if same_text(&a, 0, n, "page_up") {
        Some((KeyCode::Char('u'), control))
    } else if same_text(&a, 0, n, "page_down") {
        Some((KeyCode::Char('d'), control))
    } else if same_text(&a, 0, n, "jump_to_top") {
        Some((KeyCode::Char('g'), none))
    } else if same_text(&a, 0, n, "jump_to_bottom") {
        Some((KeyCode::Char('G'), shift))
    } else if same_text(&a, 0, n, "jump_to_row_start") {
        Some((KeyCode::Char('0'), none))
    } else if same_text(&a, 0, n, "jump_to_row_end") {
        Some((KeyCode::Char('$'), shift))
    } else if same_text(&a, 0, n, "quit") {
        Some((KeyCode::Char('q'), none))
    } else if same_text(&a, 0, n, "copy_cell") {
        Some((KeyCode::Char('y'), none))
    } else if same_text(&a, 0, n, "copy_row") {
        Some((KeyCode::Char('Y'), shift))
    } else {
        get_default_keybinding(action)
    }
}

/// The key string that the custom bindings hold for an action: that of the
/// first binding of the action, if there is one.
pub open spec fn custom_key(custom: Seq<(String, String)>, action: Seq<char>) -> Option<Seq<char>>
    decreases custom.len(),
{
    if custom.len() == 0 {
        None
    } else if custom[0].0@ == action {
        Some(custom[0].1@)
    } else {
        custom_key(custom.drop_first(), action)
    }
}

/// A binding put in the place of the first binding of its action changes the
/// key string of that action and of no other.
pub proof fn lemma_custom_key_replaced(
    custom: Seq<(String, String)>,
    i: int,
    pair: (String, String),
    a: Seq<char>,
)
    requires
        0 <= i < custom.len(),
        custom[i].0@ == pair.0@,
        forall|k: int| 0 <= k < i ==> (#[trigger] custom[k]).0@ != pair.0@,
    ensures
        custom_key(custom.update(i, pair), a) == (if a == pair.0@ {
            Some(pair.1@)
        } else {
            custom_key(custom, a)
        }),
    decreases i,
{
    let after = custom.update(i, pair);
    let rest = custom.drop_first();
    if i > 0 {
        assert(after.drop_first() == rest.update(i - 1, pair));
        assert(after[0] == custom[0]);
        assert(custom[0].0@ != pair.0@);
        assert(rest[i - 1] == custom[i]);
        assert forall|k: int| 0 <= k < i - 1 implies (#[trigger] rest[k]).0@ != pair.0@ by {
            assert(rest[k] == custom[k + 1]);
        }
        lemma_custom_key_replaced(rest, i - 1, pair, a);
    } else {
        assert(after.drop_first() == rest);
        assert(after[0] == pair);
    }
}

/// A binding added behind the bindings, none of which is of its action, gives
/// that action its key string and changes no other.
pub proof fn lemma_custom_key_added(
    custom: Seq<(String, String)>,
    pair: (String, String),
    a: Seq<char>,
)
    requires
        forall|k: int| 0 <= k < custom.len() ==> (#[trigger] custom[k]).0@ != pair.0@,
    ensures
        custom_key(custom.push(pair), a) == (if a == pair.0@ {
            Some(pair.1@)
        } else {
            custom_key(custom, a)
        }),
    decreases custom.len(),
{
    let after = custom.push(pair);
    if custom.len() > 0 {
        let rest = custom.drop_first();
        assert(after.drop_first() == rest.push(pair));
        assert(after[0] == custom[0]);
        assert(custom[0].0@ != pair.0@);
        assert forall|k: int| 0 <= k < rest.len() implies (#[trigger] rest[k]).0@ != pair.0@ by {
            assert(rest[k] == custom[k + 1]);
        }
        lemma_custom_key_added(rest, pair, a);
    } else {
        assert(after.drop_first() =~= Seq::<(String, String)>::empty());
        assert(after[0] == pair);
        assert(custom_key(after.drop_first(), a) is None);
    }
}

impl Config {
    /// An example of a configuration file.
    pub fn example_toml() -> (out: String)
        ensures
            out@ == EXAMPLE_TOML@,
    {
        String::from_str(EXAMPLE_TOML)
    }

    /// Binds `action` to the key string `key`, before any binding of the
    /// profile and in place of an earlier custom binding of the action.
    pub fn set_custom_binding(&mut self, action: String, key: String)
        ensures
            forall|a: Seq<char>|
                #[trigger] custom_key(final(self).keybindings.custom@, a) == (if a == action@ {
                    Some(key@)
                } else {
                    custom_key(old(self).keybindings.custom@, a)
                }),
            final(self).keybindings.profile == old(self).keybindings.profile,
            final(self).theme == old(self).theme,
            final(self).ui == old(self).ui,
    {
        let mut i: usize = 0;
        while i < self.keybindings.custom.len()
            invariant
                0 <= i <= self.keybindings.custom.len(),
                *self == *old(self),
                forall|k: int| 0 <= k < i ==> (#[trigger] self.keybindings.custom@[k]).0@ != action@,
            decreases self.keybindings.custom.len() - i,
        {
            if str_is(self.keybindings.custom[i].0.as_str(), action.as_str()) {
                proof {
                    assert forall|a: Seq<char>|
                        #[trigger] custom_key(
                            self.keybindings.custom@.update(i as int, (action, key)),
                            a,
                        ) == (if a == action@ {
                            Some(key@)
                        } else {
                            custom_key(self.keybindings.custom@, a)
                        }) by {
                        lemma_custom_key_replaced(
                            self.keybindings.custom@,
                            i as int,
                            (action, key),
                            a,
                        );
                    }
                }
                self.keybindings.custom.set(i, (action, key));
                return ;
            }
            i += 1;
        }
        proof {
            assert forall|a: Seq<char>|
                #[trigger] custom_key(self.keybindings.custom@.push((action, key)), a) == (if a
                    == action@ {
                    Some(key@)
                } else {
                    custom_key(self.keybindings.custom@, a)
                }) by {
                lemma_custom_key_added(self.keybindings.custom@, (action, key), a);
            }
        }
        self.keybindings.custom.push((action, key));
    }

    /// The binding of `action`: what the key string of a custom binding binds,
    /// where the configuration has one for the action; else the binding of the
    /// profile, which is the vim profile if it is named so and else the default
    /// profile.
    pub open spec fn binding(&self, action: Seq<char>) -> Option<(KeyCode, KeyModifiers)> {
        match custom_key(self.keybindings.custom@, action) {
            Some(key) => key_string(key),
            None => if self.keybindings.profile@ == "vim"@ {
                vim_binding(action)
            } else {
                default_binding(action)
            },
        }
    }

    /// The key and the modifier keys bound to `action`, if any are.
    pub fn get_keybinding(&self, action: &str) -> (r: Option<(KeyCode, KeyModifiers)>)
        ensures
            r == self.binding(action@),
    {
        let mut i: usize = 0;
        proof {
            assert(self.keybindings.custom@.skip(0) == self.keybindings.custom@);
        }
        while i < self.keybindings.custom.len()
            invariant
                0 <= i <= self.keybindings.custom.len(),
                custom_key(self.keybindings.custom@, action@) == custom_key(
                    self.keybindings.custom@.skip(i as int),
                    action@,
                ),
            decreases self.keybindings.custom.len() - i,
        {
            proof {
                assert(self.keybindings.custom@.skip(i as int).drop_first()
                    == self.keybindings.custom@.skip(i + 1));
            }
            if str_is(self.keybindings.custom[i].0.as_str(), action) {
                return parse_key_string(self.keybindings.custom[i].1.as_str());
            }
            i += 1;
        }
        if str_is(self.keybindings.profile.as_str(), "vim") {
            get_vim_keybinding(action)
        } else {
            get_default_keybinding(action)
        }
    }
}

} // verus!

//! Keyboard layouts. Each layer is a `Vec` of rows; each row is a `Vec<Key>`.
//!
//! Keycodes here are **evdev** codes (what `xkb` calls "raw" keycodes, i.e.
//! XKB_keycode - 8). This matches what `zwp_virtual_keyboard_v1::key()` wants.
//!
//! Key widths are counted in quarter units: a standard letter key is 4, the
//! space bar of the letters layer 16.

use vstd::prelude::*;

pub mod kc;

verus! {

/// A key on the panel.
#[derive(Debug)]
pub struct Key {
    pub label: String,
    /// Rendered when Shift is armed or locked.
    pub shifted: Option<String>,
    pub action: KeyAction,
    /// Width in quarter units (4 = a standard letter key).
    pub width_quarters: u32,
}

/// What a key does when tapped.
#[derive(Debug, Clone, Copy, PartialEq, Eq, Structural)]
pub enum KeyAction {
    /// Send this evdev keycode as a tap (0: type the key's label as text).
    Code(u32),
    /// Send this evdev keycode as a tap with Shift added to the modifiers in
    /// effect, so that the key types its shifted glyph.
    ShiftedCode(u32),
    /// Switch active layer.
    Layer(Layer),
    /// Toggle a modifier on/off (sticky).
    Modifier(Mod),
    /// Hide/dismiss the keyboard window.
    Hide,
}

#[derive(Debug, Clone, Copy, PartialEq, Eq, Hash, Structural)]
pub enum Layer {
    Letters,
    Symbols,
    Emoji,
    Nav,
}

#[derive(Debug, Clone, Copy, PartialEq, Eq, Hash, Structural)]
pub enum Mod {
    Shift,
    Ctrl,
    Alt,
    Super,
}

/// A key as a value: its texts as character sequences.
pub struct KeyView {
    pub label: Seq<char>,
    pub shifted: Option<Seq<char>>,
    pub action: KeyAction,
    pub width_quarters: nat,
}

impl DeepView for Key {
    type V = KeyView;

    open spec fn deep_view(&self) -> KeyView {
        KeyView {
            label: self.label@,
            shifted: match self.shifted {
                Some(s) => Some(s@),
                None => None,
            },
            action: self.action,
            width_quarters: self.width_quarters as nat,
        }
    }
}

/// The XKB modifier bit of a modifier.
pub open spec fn spec_mask_bit(m: Mod) -> u32 {
    match m {
        Mod::Shift => 1,
        Mod::Ctrl => 4,
        Mod::Alt => 8,
        Mod::Super => 64,
    }
}

impl Mod {
    /// XKB modifier bitmask (matches xkb_state_serialize_mods output for a US layout).
    pub fn mask_bit(self) -> (r: u32)
        ensures
            r == spec_mask_bit(self),
    {
        assert(1u32 << 0u32 == 1 && 1u32 << 2u32 == 4 && 1u32 << 3u32 == 8 && 1u32 << 6u32 == 64)
            by (bit_vector);
        match self {
            Mod::Shift => 1 << 0,
            Mod::Ctrl => 1 << 2,
            Mod::Alt => 1 << 3,
            Mod::Super => 1 << 6,
        }
    }
}

// Helpers describing keys, for the tables below.
pub open spec fn spec_k(label: &str, shifted: &str, code: u32) -> KeyView {
    KeyView { label: label@, shifted: Some(shifted@), action: KeyAction::Code(code), width_quarters: 4 }
}

pub open spec fn spec_ks(label: &str, shifted: &str, code: u32) -> KeyView {
    KeyView { label: label@, shifted: Some(shifted@), action: KeyAction::ShiftedCode(code), width_quarters: 4 }
}

pub open spec fn spec_sw(label: &str, code: u32, width_quarters: nat) -> KeyView {
    KeyView { label: label@, shifted: None, action: KeyAction::Code(code), width_quarters }
}

pub open spec fn spec_m(label: &str, modifier: Mod, width_quarters: nat) -> KeyView {
    KeyView { label: label@, shifted: None, action: KeyAction::Modifier(modifier), width_quarters }
}

pub open spec fn spec_l(label: &str, layer: Layer, width_quarters: nat) -> KeyView {
    KeyView { label: label@, shifted: None, action: KeyAction::Layer(layer), width_quarters }
}

// Helpers for building rows.
fn k(label: &str, shifted: &str, code: u32) -> (r: Key)
    ensures
        r.deep_view() == spec_k(label, shifted, code),
{
    Key { label: label.to_owned(), shifted: Some(shifted.to_owned()), action: KeyAction::Code(code), width_quarters: 4 }
}

fn ks(label: &str, shifted: &str, code: u32) -> (r: Key)
    ensures
        r.deep_view() == spec_ks(label, shifted, code),
{
    Key {
        label: label.to_owned(),
        shifted: Some(shifted.to_owned()),
        action: KeyAction::ShiftedCode(code),
        width_quarters: 4,
    }
}

fn sw(label: &str, code: u32, width_quarters: u32) -> (r: Key)
    ensures
        r.deep_view() == spec_sw(label, code, width_quarters as nat),
{
    Key { label: label.to_owned(), shifted: None, action: KeyAction::Code(code), width_quarters }
}

fn m(label: &str, modifier: Mod, width_quarters: u32) -> (r: Key)
    ensures
        r.deep_view() == spec_m(label, modifier, width_quarters as nat),
{
    Key { label: label.to_owned(), shifted: None, action: KeyAction::Modifier(modifier), width_quarters }
}

fn l(label: &str, layer: Layer, width_quarters: u32) -> (r: Key)
    ensures
        r.deep_view() == spec_l(label, layer, width_quarters as nat),
{
    Key { label: label.to_owned(), shifted: None, action: KeyAction::Layer(layer), width_quarters }
}

/// The letters layer: numbers, QWERTY rows, modifiers, space and layer switches.
pub open spec fn letters_table() -> Seq<Seq<KeyView>> {
    seq![
        seq![
            spec_k("1", "!", kc::N1), spec_k("2", "@", kc::N2), spec_k("3", "#", kc::N3),
            spec_k("4", "$", kc::N4), spec_k("5", "%", kc::N5), spec_k("6", "^", kc::N6),
            spec_k("7", "&", kc::N7), spec_k("8", "*", kc::N8), spec_k("9", "(", kc::N9),
            spec_k("0", ")", kc::N0), spec_k("-", "_", kc::MINUS), spec_k("=", "+", kc::EQUAL),
            spec_sw("⌫", kc::BACKSPACE, 6),
        ],
        seq![
            spec_sw("Tab", kc::TAB, 6), spec_k("q", "Q", kc::Q), spec_k("w", "W", kc::W),
            spec_k("e", "E", kc::E), spec_k("r", "R", kc::R), spec_k("t", "T", kc::T),
            spec_k("y", "Y", kc::Y), spec_k("u", "U", kc::U), spec_k("i", "I", kc::I),
            spec_k("o", "O", kc::O), spec_k("p", "P", kc::P), spec_k("[", "{", kc::LBRACE),
            spec_k("]", "}", kc::RBRACE), spec_k("\\", "|", kc::BACKSLASH),
        ],
        seq![
            spec_m("Caps", Mod::Shift, 7), spec_k("a", "A", kc::A), spec_k("s", "S", kc::S),
            spec_k("d", "D", kc::D), spec_k("f", "F", kc::F), spec_k("g", "G", kc::G),
            spec_k("h", "H", kc::H), spec_k("j", "J", kc::J), spec_k("k", "K", kc::K),
            spec_k("l", "L", kc::L), spec_k(";", ":", kc::SEMI), spec_k("'", "\"", kc::APOS),
            spec_sw("Enter", kc::ENTER, 8),
        ],
        seq![
            spec_m("⇧", Mod::Shift, 9), spec_k("z", "Z", kc::Z), spec_k("x", "X", kc::X),
            spec_k("c", "C", kc::C), spec_k("v", "V", kc::V), spec_k("b", "B", kc::B),
            spec_k("n", "N", kc::N), spec_k("m", "M", kc::M), spec_k(",", "<", kc::COMMA),
            spec_k(".", ">", kc::DOT), spec_k("/", "?", kc::SLASH), spec_m("⇧", Mod::Shift, 8),
        ],
        seq![
            spec_m("Ctrl", Mod::Ctrl, 5), spec_m("Super", Mod::Super, 5),
            spec_m("Alt", Mod::Alt, 5), spec_l("?123", Layer::Symbols, 5),
            spec_sw("Space", kc::SPACE, 16), spec_l("😀", Layer::Emoji, 5),
            spec_sw("←", kc::LEFT, 4), spec_sw("↓", kc::DOWN, 4), spec_sw("↑", kc::UP, 4),
            spec_sw("→", kc::RIGHT, 4),
        ],
    ]
}

pub fn letters() -> (r: Vec<Vec<Key>>)
    ensures
        r.deep_view() == letters_table(),
{
    let row0 = vec![
        k("1", "!", kc::N1), k("2", "@", kc::N2), k("3", "#", kc::N3), k("4", "$", kc::N4),
        k("5", "%", kc::N5), k("6", "^", kc::N6), k("7", "&", kc::N7), k("8", "*", kc::N8),
        k("9", "(", kc::N9), k("0", ")", kc::N0), k("-", "_", kc::MINUS),
        k("=", "+", kc::EQUAL), sw("⌫", kc::BACKSPACE, 6),
    ];
    assert(row0.deep_view() =~= letters_table()[0]);
    let row1 = vec![
        sw("Tab", kc::TAB, 6), k("q", "Q", kc::Q), k("w", "W", kc::W), k("e", "E", kc::E),
        k("r", "R", kc::R), k("t", "T", kc::T), k("y", "Y", kc::Y), k("u", "U", kc::U),
        k("i", "I", kc::I), k("o", "O", kc::O), k("p", "P", kc::P), k("[", "{", kc::LBRACE),
        k("]", "}", kc::RBRACE), k("\\", "|", kc::BACKSLASH),
    ];
    assert(row1.deep_view() =~= letters_table()[1]);
    let row2 = vec![
        m("Caps", Mod::Shift, 7), k("a", "A", kc::A), k("s", "S", kc::S), k("d", "D", kc::D),
        k("f", "F", kc::F), k("g", "G", kc::G), k("h", "H", kc::H), k("j", "J", kc::J),
        k("k", "K", kc::K), k("l", "L", kc::L), k(";", ":", kc::SEMI), k("'", "\"", kc::APOS),
        sw("Enter", kc::ENTER, 8),
    ];
    assert(row2.deep_view() =~= letters_table()[2]);
    let row3 = vec![
        m("⇧", Mod::Shift, 9), k("z", "Z", kc::Z), k("x", "X", kc::X), k("c", "C", kc::C),
        k("v", "V", kc::V), k("b", "B", kc::B), k("n", "N", kc::N), k("m", "M", kc::M),
        k(",", "<", kc::COMMA), k(".", ">", kc::DOT), k("/", "?", kc::SLASH),
        m("⇧", Mod::Shift, 8),
    ];
    assert(row3.deep_view() =~= letters_table()[3]);
    let row4 = vec![
        m("Ctrl", Mod::Ctrl, 5), m("Super", Mod::Super, 5), m("Alt", Mod::Alt, 5),
        l("?123", Layer::Symbols, 5), sw("Space", kc::SPACE, 16), l("😀", Layer::Emoji, 5),
        sw("←", kc::LEFT, 4), sw("↓", kc::DOWN, 4), sw("↑", kc::UP, 4), sw("→", kc::RIGHT, 4),
    ];
    assert(row4.deep_view() =~= letters_table()[4]);
    let rows = vec![row0, row1, row2, row3, row4];
    assert(rows.deep_view() =~= letters_table());
    rows
}

/// The symbols layer: digits, punctuation and the shifted digit row.
pub open spec fn symbols_table() -> Seq<Seq<KeyView>> {
    seq![
        seq![
            spec_k("1", "!", kc::N1), spec_k("2", "@", kc::N2), spec_k("3", "#", kc::N3),
            spec_k("4", "$", kc::N4), spec_k("5", "%", kc::N5), spec_k("6", "^", kc::N6),
            spec_k("7", "&", kc::N7), spec_k("8", "*", kc::N8), spec_k("9", "(", kc::N9),
            spec_k("0", ")", kc::N0), spec_sw("⌫", kc::BACKSPACE, 6),
        ],
        seq![
            spec_k("`", "~", kc::GRAVE), spec_k("-", "_", kc::MINUS),
            spec_k("=", "+", kc::EQUAL), spec_k("[", "{", kc::LBRACE),
            spec_k("]", "}", kc::RBRACE), spec_k("\\", "|", kc::BACKSLASH),
            spec_k(";", ":", kc::SEMI), spec_k("'", "\"", kc::APOS),
            spec_k(",", "<", kc::COMMA), spec_k(".", ">", kc::DOT),
            spec_k("/", "?", kc::SLASH),
        ],
        seq![
            spec_m("⇧", Mod::Shift, 7), spec_ks("!", "1", kc::N1), spec_ks("@", "2", kc::N2),
            spec_ks("#", "3", kc::N3), spec_ks("$", "4", kc::N4), spec_ks("%", "5", kc::N5),
            spec_ks("^", "6", kc::N6), spec_ks("&", "7", kc::N7), spec_ks("*", "8", kc::N8),
            spec_sw("Enter", kc::ENTER, 8),
        ],
        seq![
            spec_l("ABC", Layer::Letters, 6), spec_m("Ctrl", Mod::Ctrl, 5),
            spec_m("Alt", Mod::Alt, 5), spec_sw("Space", kc::SPACE, 16),
            spec_l("😀", Layer::Emoji, 5), spec_sw("←", kc::LEFT, 4), spec_sw("↓", kc::DOWN, 4),
            spec_sw("↑", kc::UP, 4), spec_sw("→", kc::RIGHT, 4),
        ],
    ]
}

pub fn symbols() -> (r: Vec<Vec<Key>>)
    ensures
        r.deep_view() == symbols_table(),
{
    // A dedicated symbol layer: the same evdev codes can be combined with
    // Shift via the modifier system, but a flat layer of every common symbol
    // is cleaner for users.
    let row0 = vec![
        k("1", "!", kc::N1), k("2", "@", kc::N2), k("3", "#", kc::N3), k("4", "$", kc::N4),
        k("5", "%", kc::N5), k("6", "^", kc::N6), k("7", "&", kc::N7), k("8", "*", kc::N8),
        k("9", "(", kc::N9), k("0", ")", kc::N0), sw("⌫", kc::BACKSPACE, 6),
    ];
    assert(row0.deep_view() =~= symbols_table()[0]);
    let row1 = vec![
        k("`", "~", kc::GRAVE), k("-", "_", kc::MINUS), k("=", "+", kc::EQUAL),
        k("[", "{", kc::LBRACE), k("]", "}", kc::RBRACE), k("\\", "|", kc::BACKSLASH),
        k(";", ":", kc::SEMI), k("'", "\"", kc::APOS), k(",", "<", kc::COMMA),
        k(".", ">", kc::DOT), k("/", "?", kc::SLASH),
    ];
    assert(row1.deep_view() =~= symbols_table()[1]);
    // Shift-layer convenience: the keys of this row type their shifted
    // glyphs by sending Shift together with the base key.
    let row2 = vec![
        m("⇧", Mod::Shift, 7), ks("!", "1", kc::N1), ks("@", "2", kc::N2), ks("#", "3", kc::N3),
        ks("$", "4", kc::N4), ks("%", "5", kc::N5), ks("^", "6", kc::N6), ks("&", "7", kc::N7),
        ks("*", "8", kc::N8), sw("Enter", kc::ENTER, 8),
    ];
    assert(row2.deep_view() =~= symbols_table()[2]);
    let row3 = vec![
        l("ABC", Layer::Letters, 6), m("Ctrl", Mod::Ctrl, 5), m("Alt", Mod::Alt, 5),
        sw("Space", kc::SPACE, 16), l("😀", Layer::Emoji, 5), sw("←", kc::LEFT, 4),
        sw("↓", kc::DOWN, 4), sw("↑", kc::UP, 4), sw("→", kc::RIGHT, 4),
    ];
    assert(row3.deep_view() =~= symbols_table()[3]);
    let rows = vec![row0, row1, row2, row3];
    assert(rows.deep_view() =~= symbols_table());
    rows
}

/// The navigation layer: Esc, function keys, editing and arrow keys.
pub open spec fn nav_table() -> Seq<Seq<KeyView>> {
    seq![
        seq![
            spec_sw("Esc", kc::ESC, 4), spec_sw("F1", kc::F1, 4), spec_sw("F2", kc::F2, 4),
            spec_sw("F3", kc::F3, 4), spec_sw("F4", kc::F4, 4), spec_sw("F5", kc::F5, 4),
            spec_sw("F6", kc::F6, 4), spec_sw("F7", kc::F7, 4), spec_sw("F8", kc::F8, 4),
            spec_sw("F9", kc::F9, 4), spec_sw("F10", kc::F10, 4), spec_sw("F11", kc::F11, 4),
            spec_sw("F12", kc::F12, 4),
        ],
        seq![
            spec_sw("Insert", kc::INSERT, 6), spec_sw("Home", kc::HOME, 5),
            spec_sw("PgUp", kc::PGUP, 5), spec_sw("↑", kc::UP, 5),
            spec_sw("PgDn", kc::PGDN, 5), spec_sw("End", kc::END, 5),
            spec_sw("Del", kc::DELETE, 6),
        ],
        seq![
            spec_sw("Tab", kc::TAB, 6), spec_sw("←", kc::LEFT, 5), spec_sw("↓", kc::DOWN, 5),
            spec_sw("→", kc::RIGHT, 5), spec_sw("Enter", kc::ENTER, 8),
            spec_sw("⌫", kc::BACKSPACE, 6),
        ],
        seq![
            spec_l("ABC", Layer::Letters, 6), spec_m("Ctrl", Mod::Ctrl, 5),
            spec_m("Super", Mod::Super, 5), spec_m("Alt", Mod::Alt, 5),
            spec_sw("Space", kc::SPACE, 16), spec_l("?123", Layer::Symbols, 5),
        ],
    ]
}

pub fn nav() -> (r: Vec<Vec<Key>>)
    ensures
        r.deep_view() == nav_table(),
{
    let row0 = vec![
        sw("Esc", kc::ESC, 4), sw("F1", kc::F1, 4), sw("F2", kc::F2, 4), sw("F3", kc::F3, 4),
        sw("F4", kc::F4, 4), sw("F5", kc::F5, 4), sw("F6", kc::F6, 4), sw("F7", kc::F7, 4),
        sw("F8", kc::F8, 4), sw("F9", kc::F9, 4), sw("F10", kc::F10, 4), sw("F11", kc::F11, 4),
        sw("F12", kc::F12, 4),
    ];
    assert(row0.deep_view() =~= nav_table()[0]);
    let row1 = vec![
        sw("Insert", kc::INSERT, 6), sw("Home", kc::HOME, 5), sw("PgUp", kc::PGUP, 5),
        sw("↑", kc::UP, 5), sw("PgDn", kc::PGDN, 5), sw("End", kc::END, 5),
        sw("Del", kc::DELETE, 6),
    ];
    assert(row1.deep_view() =~= nav_table()[1]);
    let row2 = vec![
        sw("Tab", kc::TAB, 6), sw("←", kc::LEFT, 5), sw("↓", kc::DOWN, 5),
        sw("→", kc::RIGHT, 5), sw("Enter", kc::ENTER, 8), sw("⌫", kc::BACKSPACE, 6),
    ];
    assert(row2.deep_view() =~= nav_table()[2]);
    let row3 = vec![
        l("ABC", Layer::Letters, 6), m("Ctrl", Mod::Ctrl, 5), m("Super", Mod::Super, 5),
        m("Alt", Mod::Alt, 5), sw("Space", kc::SPACE, 16), l("?123", Layer::Symbols, 5),
    ];
    assert(row3.deep_view() =~= nav_table()[3]);
    let rows = vec![row0, row1, row2, row3];
    assert(rows.deep_view() =~= nav_table());
    rows
}

/// The curated emoji, row by row.
pub open spec fn emoji_glyphs() -> Seq<Seq<Seq<char>>> {
    seq![
        seq!["😀"@, "😃"@, "😄"@, "😁"@, "😆"@, "😅"@, "😂"@, "🤣"@, "😊"@, "😇"@, "🙂"@, "🙃"@, "😉"@, "😌"@, "😍"@],
        seq!["🥰"@, "😘"@, "😗"@, "😙"@, "😚"@, "😋"@, "😛"@, "😜"@, "🤪"@, "😝"@, "🤑"@, "🤗"@, "🤭"@, "🤫"@, "🤔"@],
        seq!["🤐"@, "🤨"@, "😐"@, "😑"@, "😶"@, "😏"@, "😒"@, "🙄"@, "😬"@, "🤥"@, "😌"@, "😔"@, "😪"@, "🤤"@, "😴"@],
        seq!["👍"@, "👎"@, "👌"@, "✌️"@, "🤞"@, "🤟"@, "🤘"@, "👏"@, "🙌"@, "👐"@, "🤲"@, "🤝"@, "🙏"@, "✍️"@, "💪"@],
        seq!["❤️"@, "🧡"@, "💛"@, "💚"@, "💙"@, "💜"@, "🖤"@, "🤍"@, "🤎"@, "💔"@, "❣️"@, "💕"@, "💞"@, "💓"@, "💗"@],
    ]
}

/// An emoji key: its glyph, no shifted form, the text-typing sentinel code 0.
pub open spec fn spec_glyph_key(glyph: Seq<char>) -> KeyView {
    KeyView { label: glyph, shifted: None, action: KeyAction::Code(0), width_quarters: 4 }
}

/// The control row under the emoji.
pub open spec fn emoji_bottom_row() -> Seq<KeyView> {
    seq![
        spec_l("ABC", Layer::Letters, 6), spec_sw("Space", kc::SPACE, 24),
        spec_sw("⌫", kc::BACKSPACE, 6), spec_sw("Enter", kc::ENTER, 6),
    ]
}

/// The emoji layer: one key per curated emoji, then the control row.
pub open spec fn emoji_table() -> Seq<Seq<KeyView>> {
    emoji_glyphs().map_values(|row: Seq<Seq<char>>| row.map_values(|g: Seq<char>| spec_glyph_key(g))).push(
        emoji_bottom_row(),
    )
}

/// Emoji are a special case. The virtual_keyboard protocol sends keycodes,
/// so arbitrary Unicode cannot be injected directly through it. Emoji keys
/// therefore carry the evdev code 0, and a tap on one types its glyph as text
/// (through `wtype`, or the clipboard and Ctrl+V).
pub fn emoji() -> (r: Vec<Vec<Key>>)
    ensures
        r.deep_view() == emoji_table(),
{
    let rows = [
            vec!["😀", "😃", "😄", "😁", "😆", "😅", "😂", "🤣", "😊", "😇", "🙂", "🙃", "😉", "😌", "😍"],
            vec!["🥰", "😘", "😗", "😙", "😚", "😋", "😛", "😜", "🤪", "😝", "🤑", "🤗", "🤭", "🤫", "🤔"],
            vec!["🤐", "🤨", "😐", "😑", "😶", "😏", "😒", "🙄", "😬", "🤥", "😌", "😔", "😪", "🤤", "😴"],
            vec!["👍", "👎", "👌", "✌️", "🤞", "🤟", "🤘", "👏", "🙌", "👐", "🤲", "🤝", "🙏", "✍️", "💪"],
            vec!["❤️", "🧡", "💛", "💚", "💙", "💜", "🖤", "🤍", "🤎", "💔", "❣️", "💕", "💞", "💓", "💗"],
    ];
    let ghost glyphs = rows@.map_values(|row: Vec<&str>| row@.map_values(|g: &str| g@));
    assert(glyphs =~= emoji_glyphs()) by {
        assert(glyphs[0] =~= emoji_glyphs()[0]);
        assert(glyphs[1] =~= emoji_glyphs()[1]);
        assert(glyphs[2] =~= emoji_glyphs()[2]);
        assert(glyphs[3] =~= emoji_glyphs()[3]);
        assert(glyphs[4] =~= emoji_glyphs()[4]);
    }

    let mut layers: Vec<Vec<Key>> = Vec::new();
    let mut i: usize = 0;
    while i < rows.len()
        invariant
            i <= rows@.len(),
            rows@.len() == 5,
            glyphs == emoji_glyphs(),
            glyphs == rows@.map_values(|row: Vec<&str>| row@.map_values(|g: &str| g@)),
            layers@.len() == i,
            forall|j: int| 0 <= j < i ==> #[trigger] layers@[j].deep_view() == emoji_table()[j],
        decreases rows@.len() - i,
    {
        let row = &rows[i];
        let mut keys: Vec<Key> = Vec::new();
        let mut t: usize = 0;
        while t < row.len()
            invariant
                t <= row@.len(),
                keys@.len() == t,
                forall|s: int| 0 <= s < t ==> #[trigger] keys@[s].deep_view() == spec_glyph_key(row@[s]@),
            decreases row@.len() - t,
        {
            keys.push(Key {
                label: row[t].to_owned(),
                shifted: None,
                action: KeyAction::Code(0),  // sentinel; typed as text
                width_quarters: 4,
            });
            t = t + 1;
        }
        assert(keys.deep_view() =~= emoji_table()[i as int]) by {
            assert(glyphs[i as int] == row@.map_values(|g: &str| g@));
        }
        layers.push(keys);
        i = i + 1;
    }

    // Bottom control row
    let controls = vec![
        l("ABC", Layer::Letters, 6), sw("Space", kc::SPACE, 24), sw("⌫", kc::BACKSPACE, 6),
        sw("Enter", kc::ENTER, 6),
    ];
    assert(controls.deep_view() =~= emoji_bottom_row());
    layers.push(controls);
    assert(layers.deep_view() =~= emoji_table());
    layers
}

pub fn layout_for(layer: Layer) -> (r: Vec<Vec<Key>>)
    ensures
        r.deep_view() == layer_table(layer),
{
    match layer {
        Layer::Letters => letters(),
        Layer::Symbols => symbols(),
        Layer::Emoji => emoji(),
        Layer::Nav => nav(),
    }
}

/// The table of a layer.
pub open spec fn layer_table(layer: Layer) -> Seq<Seq<KeyView>> {
    match layer {
        Layer::Letters => letters_table(),
        Layer::Symbols => symbols_table(),
        Layer::Emoji => emoji_table(),
        Layer::Nav => nav_table(),
    }
}

/// What every key of a layer satisfies: it is at least one standard unit
/// wide, it never hides the panel, a layer key switches to another layer, and
/// a code key sends an evdev code below 256 that is 0 (type the label as
/// text) only on the emoji layer, and a shifted code key sends a non-zero
/// evdev code below 256.
pub open spec fn well_formed_key(layer: Layer, key: KeyView) -> bool {
    &&& key.width_quarters >= 4
    &&& key.action != KeyAction::Hide
    &&& key.action matches KeyAction::Layer(target) ==> target != layer
    &&& key.action matches KeyAction::Code(code) ==> code < 256 && (layer != Layer::Emoji ==> code != 0)
    &&& key.action matches KeyAction::ShiftedCode(code) ==> 0 < code < 256
}

/// Every key of every row of a layer is well formed.
pub open spec fn well_formed_layer(layer: Layer) -> bool {
    forall|r: int, j: int|
        0 <= r < layer_table(layer).len() && 0 <= j < layer_table(layer)[r].len()
            ==> well_formed_key(layer, #[trigger] layer_table(layer)[r][j])
}

/// Every layer is well formed: only emoji keys type text, no key hides the
/// panel, layer keys lead elsewhere; and every layer but the letters offers
/// a key back to the letters.
pub proof fn lemma_layers_well_formed(layer: Layer)
    ensures
        well_formed_layer(layer),
        layer != Layer::Letters ==> exists|r: int, j: int|
            0 <= r < layer_table(layer).len() && 0 <= j < layer_table(layer)[r].len()
                && #[trigger] layer_table(layer)[r][j].action == KeyAction::Layer(Layer::Letters),
{
    match layer {
        Layer::Letters => {
            let t = letters_table();
            assert forall|j: int| 0 <= j < t[0].len() implies well_formed_key(layer, #[trigger] t[0][j]) by {
                assert(j == 0 || j == 1 || j == 2 || j == 3 || j == 4 || j == 5 || j == 6 || j == 7 || j == 8 || j == 9 || j == 10 || j == 11 || j == 12);
            }
            assert forall|j: int| 0 <= j < t[1].len() implies well_formed_key(layer, #[trigger] t[1][j]) by {
                assert(j == 0 || j == 1 || j == 2 || j == 3 || j == 4 || j == 5 || j == 6 || j == 7 || j == 8 || j == 9 || j == 10 || j == 11 || j == 12 || j == 13);
            }
            assert forall|j: int| 0 <= j < t[2].len() implies well_formed_key(layer, #[trigger] t[2][j]) by {
                assert(j == 0 || j == 1 || j == 2 || j == 3 || j == 4 || j == 5 || j == 6 || j == 7 || j == 8 || j == 9 || j == 10 || j == 11 || j == 12);
            }
            assert forall|j: int| 0 <= j < t[3].len() implies well_formed_key(layer, #[trigger] t[3][j]) by {
                assert(j == 0 || j == 1 || j == 2 || j == 3 || j == 4 || j == 5 || j == 6 || j == 7 || j == 8 || j == 9 || j == 10 || j == 11);
            }
            assert forall|j: int| 0 <= j < t[4].len() implies well_formed_key(layer, #[trigger] t[4][j]) by {
                assert(j == 0 || j == 1 || j == 2 || j == 3 || j == 4 || j == 5 || j == 6 || j == 7 || j == 8 || j == 9);
            }
            assert forall|r: int, j: int| 0 <= r < t.len() && 0 <= j < t[r].len() implies well_formed_key(layer, #[trigger] t[r][j]) by {
                assert(r == 0 || r == 1 || r == 2 || r == 3 || r == 4);
            }
        },
        Layer::Symbols => {
            let t = symbols_table();
            assert forall|j: int| 0 <= j < t[0].len() implies well_formed_key(layer, #[trigger] t[0][j]) by {
                assert(j == 0 || j == 1 || j == 2 || j == 3 || j == 4 || j == 5 || j == 6 || j == 7 || j == 8 || j == 9 || j == 10);
            }
            assert forall|j: int| 0 <= j < t[1].len() implies well_formed_key(layer, #[trigger] t[1][j]) by {
                assert(j == 0 || j == 1 || j == 2 || j == 3 || j == 4 || j == 5 || j == 6 || j == 7 || j == 8 || j == 9 || j == 10);
            }
            assert forall|j: int| 0 <= j < t[2].len() implies well_formed_key(layer, #[trigger] t[2][j]) by {
                assert(j == 0 || j == 1 || j == 2 || j == 3 || j == 4 || j == 5 || j == 6 || j == 7 || j == 8 || j == 9);
            }
            assert forall|j: int| 0 <= j < t[3].len() implies well_formed_key(layer, #[trigger] t[3][j]) by {
                assert(j == 0 || j == 1 || j == 2 || j == 3 || j == 4 || j == 5 || j == 6 || j == 7 || j == 8);
            }
            assert forall|r: int, j: int| 0 <= r < t.len() && 0 <= j < t[r].len() implies well_formed_key(layer, #[trigger] t[r][j]) by {
                assert(r == 0 || r == 1 || r == 2 || r == 3);
            }
            assert(layer_table(layer)[3][0].action == KeyAction::Layer(Layer::Letters));
        },
        Layer::Nav => {
            let t = nav_table();
            assert forall|j: int| 0 <= j < t[0].len() implies well_formed_key(layer, #[trigger] t[0][j]) by {
                assert(j == 0 || j == 1 || j == 2 || j == 3 || j == 4 || j == 5 || j == 6 || j == 7 || j == 8 || j == 9 || j == 10 || j == 11 || j == 12);
            }
            assert forall|j: int| 0 <= j < t[1].len() implies well_formed_key(layer, #[trigger] t[1][j]) by {
                assert(j == 0 || j == 1 || j == 2 || j == 3 || j == 4 || j == 5 || j == 6);
            }
            assert forall|j: int| 0 <= j < t[2].len() implies well_formed_key(layer, #[trigger] t[2][j]) by {
                assert(j == 0 || j == 1 || j == 2 || j == 3 || j == 4 || j == 5);
            }
            assert forall|j: int| 0 <= j < t[3].len() implies well_formed_key(layer, #[trigger] t[3][j]) by {
                assert(j == 0 || j == 1 || j == 2 || j == 3 || j == 4 || j == 5);
            }
            assert forall|r: int, j: int| 0 <= r < t.len() && 0 <= j < t[r].len() implies well_formed_key(layer, #[trigger] t[r][j]) by {
                assert(r == 0 || r == 1 || r == 2 || r == 3);
            }
            assert(layer_table(layer)[3][0].action == KeyAction::Layer(Layer::Letters));
        },
        Layer::Emoji => {
            let t = emoji_table();
            let g = emoji_glyphs();
            assert forall|j: int| 0 <= j < t[5].len() implies well_formed_key(layer, #[trigger] t[5][j]) by {
                assert(j == 0 || j == 1 || j == 2 || j == 3);
            }
            assert forall|r: int, j: int| 0 <= r < t.len() && 0 <= j < t[r].len() implies well_formed_key(layer, #[trigger] t[r][j]) by {
                if r < 5 {
                    assert(t[r] == g[r].map_values(|c: Seq<char>| spec_glyph_key(c)));
                }
            }
            assert(layer_table(layer)[5][0].action == KeyAction::Layer(Layer::Letters));
        },
    }
}

/// On the emoji layer the first five rows are exactly the curated emoji,
/// each typed as text, and the control row sends real keycodes.
pub proof fn lemma_emoji_rows()
    ensures
        emoji_table().len() == 6,
        forall|r: int, j: int| 0 <= r < 5 && 0 <= j < emoji_glyphs()[r].len()
            ==> #[trigger] emoji_table()[r][j] == spec_glyph_key(emoji_glyphs()[r][j]),
        forall|j: int| 0 <= j < emoji_table()[5].len()
            ==> !(#[trigger] emoji_table()[5][j].action == KeyAction::Code(0)),
{
    let t = emoji_table();
    assert forall|r: int, j: int| 0 <= r < 5 && 0 <= j < emoji_glyphs()[r].len()
        implies #[trigger] t[r][j] == spec_glyph_key(emoji_glyphs()[r][j]) by {
        assert(t[r] == emoji_glyphs()[r].map_values(|c: Seq<char>| spec_glyph_key(c)));
    }
    assert forall|j: int| 0 <= j < t[5].len() implies !(#[trigger] t[5][j].action == KeyAction::Code(0)) by {
        assert(j == 0 || j == 1 || j == 2 || j == 3);
    }
}

/// The key of a US keyboard that types a printable character: its evdev
/// code, and whether Shift must be held.
pub open spec fn us_key(c: char) -> Option<(u32, bool)> {
    match c {
        '1' => Some((kc::N1, false)),
        '!' => Some((kc::N1, true)),
        '2' => Some((kc::N2, false)),
        '@' => Some((kc::N2, true)),
        '3' => Some((kc::N3, false)),
        '#' => Some((kc::N3, true)),
        '4' => Some((kc::N4, false)),
        '$' => Some((kc::N4, true)),
        '5' => Some((kc::N5, false)),
        '%' => Some((kc::N5, true)),
        '6' => Some((kc::N6, false)),
        '^' => Some((kc::N6, true)),
        '7' => Some((kc::N7, false)),
        '&' => Some((kc::N7, true)),
        '8' => Some((kc::N8, false)),
        '*' => Some((kc::N8, true)),
        '9' => Some((kc::N9, false)),
        '(' => Some((kc::N9, true)),
        '0' => Some((kc::N0, false)),
        ')' => Some((kc::N0, true)),
        '-' => Some((kc::MINUS, false)),
        '_' => Some((kc::MINUS, true)),
        '=' => Some((kc::EQUAL, false)),
        '+' => Some((kc::EQUAL, true)),
        '[' => Some((kc::LBRACE, false)),
        '{' => Some((kc::LBRACE, true)),
        ']' => Some((kc::RBRACE, false)),
        '}' => Some((kc::RBRACE, true)),
        '\\' => Some((kc::BACKSLASH, false)),
        '|' => Some((kc::BACKSLASH, true)),
        ';' => Some((kc::SEMI, false)),
        ':' => Some((kc::SEMI, true)),
        '\'' => Some((kc::APOS, false)),
        '"' => Some((kc::APOS, true)),
        '`' => Some((kc::GRAVE, false)),
        '~' => Some((kc::GRAVE, true)),
        ',' => Some((kc::COMMA, false)),
        '<' => Some((kc::COMMA, true)),
        '.' => Some((kc::DOT, false)),
        '>' => Some((kc::DOT, true)),
        '/' => Some((kc::SLASH, false)),
        '?' => Some((kc::SLASH, true)),
        'a' => Some((kc::A, false)),
        'A' => Some((kc::A, true)),
        'b' => Some((kc::B, false)),
        'B' => Some((kc::B, true)),
        'c' => Some((kc::C, false)),
        'C' => Some((kc::C, true)),
        'd' => Some((kc::D, false)),
        'D' => Some((kc::D, true)),
        'e' => Some((kc::E, false)),
        'E' => Some((kc::E, true)),
        'f' => Some((kc::F, false)),
        'F' => Some((kc::F, true)),
        'g' => Some((kc::G, false)),
        'G' => Some((kc::G, true)),
        'h' => Some((kc::H, false)),
        'H' => Some((kc::H, true)),
        'i' => Some((kc::I, false)),
        'I' => Some((kc::I, true)),
        'j' => Some((kc::J, false)),
        'J' => Some((kc::J, true)),
        'k' => Some((kc::K, false)),
        'K' => Some((kc::K, true)),
        'l' => Some((kc::L, false)),
        'L' => Some((kc::L, true)),
        'm' => Some((kc::M, false)),
        'M' => Some((kc::M, true)),
        'n' => Some((kc::N, false)),
        'N' => Some((kc::N, true)),
        'o' => Some((kc::O, false)),
        'O' => Some((kc::O, true)),
        'p' => Some((kc::P, false)),
        'P' => Some((kc::P, true)),
        'q' => Some((kc::Q, false)),
        'Q' => Some((kc::Q, true)),
        'r' => Some((kc::R, false)),
        'R' => Some((kc::R, true)),
        's' => Some((kc::S, false)),
        'S' => Some((kc::S, true)),
        't' => Some((kc::T, false)),
        'T' => Some((kc::T, true)),
        'u' => Some((kc::U, false)),
        'U' => Some((kc::U, true)),
        'v' => Some((kc::V, false)),
        'V' => Some((kc::V, true)),
        'w' => Some((kc::W, false)),
        'W' => Some((kc::W, true)),
        'x' => Some((kc::X, false)),
        'X' => Some((kc::X, true)),
        'y' => Some((kc::Y, false)),
        'Y' => Some((kc::Y, true)),
        'z' => Some((kc::Z, false)),
        'Z' => Some((kc::Z, true)),
        _ => None,
    }
}

/// What a key sends: its evdev code and whether Shift is added.
pub open spec fn key_sends(action: KeyAction) -> Option<(u32, bool)> {
    match action {
        KeyAction::Code(code) => Some((code, false)),
        KeyAction::ShiftedCode(code) => Some((code, true)),
        _ => None,
    }
}

/// The same key with the Shift flag flipped.
pub open spec fn shift_toggled(k: (u32, bool)) -> (u32, bool) {
    (k.0, !k.1)
}

/// A key agrees with the US layout: a one-character label that a US key
/// types is sent as that key (with Shift when the character needs it), and a
/// one-character shifted label is that same key's other character.
pub open spec fn us_consistent_key(key: KeyView) -> bool {
    &&& (key.label.len() == 1 && us_key(key.label[0]) is Some) ==> key_sends(key.action) == us_key(key.label[0])
    &&& (key.shifted matches Some(s) && s.len() == 1 && us_key(s[0]) is Some) ==> {
        &&& key_sends(key.action) is Some
        &&& us_key(key.shifted->0[0]) == Some(shift_toggled(key_sends(key.action)->0))
    }
}

/// On the letters and symbols layers every key whose label is a character
/// of a US keyboard sends the evdev code of that character's key, with Shift
/// exactly when the character needs it (the key labelled "y" sends Y, "!"
/// sends Shift+1), and a key's shifted label is its key's other character.
pub proof fn lemma_keys_follow_us_layout(layer: Layer)
    requires
        layer == Layer::Letters || layer == Layer::Symbols,
    ensures
        forall|r: int, j: int|
            0 <= r < layer_table(layer).len() && 0 <= j < layer_table(layer)[r].len()
                ==> us_consistent_key(#[trigger] layer_table(layer)[r][j]),
{
    if layer == Layer::Letters {
        lemma_us_letters_row0();
        lemma_us_letters_row1();
        lemma_us_letters_row2();
        lemma_us_letters_row3();
        lemma_us_letters_row4();
        let t = letters_table();
        assert forall|r: int, j: int| 0 <= r < t.len() && 0 <= j < t[r].len() implies us_consistent_key(#[trigger] t[r][j]) by {
            assert(r == 0 || r == 1 || r == 2 || r == 3 || r == 4);
        }
    }
    if layer == Layer::Symbols {
        lemma_us_symbols_row0();
        lemma_us_symbols_row1();
        lemma_us_symbols_row2();
        lemma_us_symbols_row3();
        let t = symbols_table();
        assert forall|r: int, j: int| 0 <= r < t.len() && 0 <= j < t[r].len() implies us_consistent_key(#[trigger] t[r][j]) by {
            assert(r == 0 || r == 1 || r == 2 || r == 3);
        }
    }
}

proof fn lemma_us_letters_row0()
    ensures
        forall|j: int| 0 <= j < letters_table()[0].len() ==> us_consistent_key(#[trigger] letters_table()[0][j]),
{
    reveal_strlit("1");
    reveal_strlit("!");
    reveal_strlit("2");
    reveal_strlit("@");
    reveal_strlit("3");
    reveal_strlit("#");
    reveal_strlit("4");
    reveal_strlit("$");
    reveal_strlit("5");
    reveal_strlit("%");
    reveal_strlit("6");
    reveal_strlit("^");
    reveal_strlit("7");
    reveal_strlit("&");
    reveal_strlit("8");
    reveal_strlit("*");
    reveal_strlit("9");
    reveal_strlit("(");
    reveal_strlit("0");
    reveal_strlit(")");
    reveal_strlit("-");
    reveal_strlit("_");
    reveal_strlit("=");
    reveal_strlit("+");
    reveal_strlit("⌫");
    let row = letters_table()[0];
    assert forall|j: int| 0 <= j < row.len() implies us_consistent_key(#[trigger] row[j]) by {
        assert(j == 0 || j == 1 || j == 2 || j == 3 || j == 4 || j == 5 || j == 6 || j == 7 || j == 8 || j == 9 || j == 10 || j == 11 || j == 12);
    }
}

proof fn lemma_us_letters_row1()
    ensures
        forall|j: int| 0 <= j < letters_table()[1].len() ==> us_consistent_key(#[trigger] letters_table()[1][j]),
{
    reveal_strlit("Tab");
    reveal_strlit("q");
    reveal_strlit("Q");
    reveal_strlit("w");
    reveal_strlit("W");
    reveal_strlit("e");
    reveal_strlit("E");
    reveal_strlit("r");
    reveal_strlit("R");
    reveal_strlit("t");
    reveal_strlit("T");
    reveal_strlit("y");
    reveal_strlit("Y");
    reveal_strlit("u");
    reveal_strlit("U");
    reveal_strlit("i");
    reveal_strlit("I");
    reveal_strlit("o");
    reveal_strlit("O");
    reveal_strlit("p");
    reveal_strlit("P");
    reveal_strlit("[");
    reveal_strlit("{");
    reveal_strlit("]");
    reveal_strlit("}");
    reveal_strlit("\\");
    reveal_strlit("|");
    let row = letters_table()[1];
    assert forall|j: int| 0 <= j < row.len() implies us_consistent_key(#[trigger] row[j]) by {
        assert(j == 0 || j == 1 || j == 2 || j == 3 || j == 4 || j == 5 || j == 6 || j == 7 || j == 8 || j == 9 || j == 10 || j == 11 || j == 12 || j == 13);
    }
}

proof fn lemma_us_letters_row2()
    ensures
        forall|j: int| 0 <= j < letters_table()[2].len() ==> us_consistent_key(#[trigger] letters_table()[2][j]),
{
    reveal_strlit("Caps");
    reveal_strlit("a");
    reveal_strlit("A");
    reveal_strlit("s");
    reveal_strlit("S");
    reveal_strlit("d");
    reveal_strlit("D");
    reveal_strlit("f");
    reveal_strlit("F");
    reveal_strlit("g");
    reveal_strlit("G");
    reveal_strlit("h");
    reveal_strlit("H");
    reveal_strlit("j");
    reveal_strlit("J");
    reveal_strlit("k");
    reveal_strlit("K");
    reveal_strlit("l");
    reveal_strlit("L");
    reveal_strlit(";");
    reveal_strlit(":");
    reveal_strlit("'");
    reveal_strlit("\"");
    reveal_strlit("Enter");
    let row = letters_table()[2];
    assert forall|j: int| 0 <= j < row.len() implies us_consistent_key(#[trigger] row[j]) by {
        assert(j == 0 || j == 1 || j == 2 || j == 3 || j == 4 || j == 5 || j == 6 || j == 7 || j == 8 || j == 9 || j == 10 || j == 11 || j == 12);
    }
}

proof fn lemma_us_letters_row3()
    ensures
        forall|j: int| 0 <= j < letters_table()[3].len() ==> us_consistent_key(#[trigger] letters_table()[3][j]),
{
    reveal_strlit("⇧");
    reveal_strlit("z");
    reveal_strlit("Z");
    reveal_strlit("x");
    reveal_strlit("X");
    reveal_strlit("c");
    reveal_strlit("C");
    reveal_strlit("v");
    reveal_strlit("V");
    reveal_strlit("b");
    reveal_strlit("B");
    reveal_strlit("n");
    reveal_strlit("N");
    reveal_strlit("m");
    reveal_strlit("M");
    reveal_strlit(",");
    reveal_strlit("<");
    reveal_strlit(".");
    reveal_strlit(">");
    reveal_strlit("/");
    reveal_strlit("?");
    let row = letters_table()[3];
    assert forall|j: int| 0 <= j < row.len() implies us_consistent_key(#[trigger] row[j]) by {
        assert(j == 0 || j == 1 || j == 2 || j == 3 || j == 4 || j == 5 || j == 6 || j == 7 || j == 8 || j == 9 || j == 10 || j == 11);
    }
}

proof fn lemma_us_letters_row4()
    ensures
        forall|j: int| 0 <= j < letters_table()[4].len() ==> us_consistent_key(#[trigger] letters_table()[4][j]),
{
    reveal_strlit("Ctrl");
    reveal_strlit("Super");
    reveal_strlit("Alt");
    reveal_strlit("?123");
    reveal_strlit("Space");
    reveal_strlit("😀");
    reveal_strlit("←");
    reveal_strlit("↓");
    reveal_strlit("↑");
    reveal_strlit("→");
    let row = letters_table()[4];
    assert forall|j: int| 0 <= j < row.len() implies us_consistent_key(#[trigger] row[j]) by {
        assert(j == 0 || j == 1 || j == 2 || j == 3 || j == 4 || j == 5 || j == 6 || j == 7 || j == 8 || j == 9);
    }
}

proof fn lemma_us_symbols_row0()
    ensures
        forall|j: int| 0 <= j < symbols_table()[0].len() ==> us_consistent_key(#[trigger] symbols_table()[0][j]),
{
    reveal_strlit("1");
    reveal_strlit("!");
    reveal_strlit("2");
    reveal_strlit("@");
    reveal_strlit("3");
    reveal_strlit("#");
    reveal_strlit("4");
    reveal_strlit("$");
    reveal_strlit("5");
    reveal_strlit("%");
    reveal_strlit("6");
    reveal_strlit("^");
    reveal_strlit("7");
    reveal_strlit("&");
    reveal_strlit("8");
    reveal_strlit("*");
    reveal_strlit("9");
    reveal_strlit("(");
    reveal_strlit("0");
    reveal_strlit(")");
    reveal_strlit("⌫");
    let row = symbols_table()[0];
    assert forall|j: int| 0 <= j < row.len() implies us_consistent_key(#[trigger] row[j]) by {
        assert(j == 0 || j == 1 || j == 2 || j == 3 || j == 4 || j == 5 || j == 6 || j == 7 || j == 8 || j == 9 || j == 10);
    }
}

proof fn lemma_us_symbols_row1()
    ensures
        forall|j: int| 0 <= j < symbols_table()[1].len() ==> us_consistent_key(#[trigger] symbols_table()[1][j]),
{
    reveal_strlit("`");
    reveal_strlit("~");
    reveal_strlit("-");
    reveal_strlit("_");
    reveal_strlit("=");
    reveal_strlit("+");
    reveal_strlit("[");
    reveal_strlit("{");
    reveal_strlit("]");
    reveal_strlit("}");
    reveal_strlit("\\");
    reveal_strlit("|");
    reveal_strlit(";");
    reveal_strlit(":");
    reveal_strlit("'");
    reveal_strlit("\"");
    reveal_strlit(",");
    reveal_strlit("<");
    reveal_strlit(".");
    reveal_strlit(">");
    reveal_strlit("/");
    reveal_strlit("?");
    let row = symbols_table()[1];
    assert forall|j: int| 0 <= j < row.len() implies us_consistent_key(#[trigger] row[j]) by {
        assert(j == 0 || j == 1 || j == 2 || j == 3 || j == 4 || j == 5 || j == 6 || j == 7 || j == 8 || j == 9 || j == 10);
    }
}

proof fn lemma_us_symbols_row2()
    ensures
        forall|j: int| 0 <= j < symbols_table()[2].len() ==> us_consistent_key(#[trigger] symbols_table()[2][j]),
{
    reveal_strlit("⇧");
    reveal_strlit("!");
    reveal_strlit("1");
    reveal_strlit("@");
    reveal_strlit("2");
    reveal_strlit("#");
    reveal_strlit("3");
    reveal_strlit("$");
    reveal_strlit("4");
    reveal_strlit("%");
    reveal_strlit("5");
    reveal_strlit("^");
    reveal_strlit("6");
    reveal_strlit("&");
    reveal_strlit("7");
    reveal_strlit("*");
    reveal_strlit("8");
    reveal_strlit("Enter");
    let row = symbols_table()[2];
    assert forall|j: int| 0 <= j < row.len() implies us_consistent_key(#[trigger] row[j]) by {
        assert(j == 0 || j == 1 || j == 2 || j == 3 || j == 4 || j == 5 || j == 6 || j == 7 || j == 8 || j == 9);
    }
}

proof fn lemma_us_symbols_row3()
    ensures
        forall|j: int| 0 <= j < symbols_table()[3].len() ==> us_consistent_key(#[trigger] symbols_table()[3][j]),
{
    reveal_strlit("ABC");
    reveal_strlit("Ctrl");
    reveal_strlit("Alt");
    reveal_strlit("Space");
    reveal_strlit("😀");
    reveal_strlit("←");
    reveal_strlit("↓");
    reveal_strlit("↑");
    reveal_strlit("→");
    let row = symbols_table()[3];
    assert forall|j: int| 0 <= j < row.len() implies us_consistent_key(#[trigger] row[j]) by {
        assert(j == 0 || j == 1 || j == 2 || j == 3 || j == 4 || j == 5 || j == 6 || j == 7 || j == 8);
    }
}


/// Different characters are typed differently on a US keyboard: two
/// characters with the same key and the same Shift state are the same, so
/// keys that follow the US layout with different labels send different keys.
pub proof fn lemma_us_key_injective(c1: char, c2: char)
    requires
        us_key(c1) is Some,
        us_key(c1) == us_key(c2),
    ensures
        c1 == c2,
{
}


/// The action a key with a named label must have, on every layer: editing and
/// navigation keys send their evdev code ("Tab" sends TAB, "F5" sends F5),
/// modifier keys toggle their modifier ("⇧" and "Caps" toggle Shift), and
/// "ABC" and "?123" switch to the letters and symbols layers.
pub open spec fn named_key_action(label: Seq<char>) -> Option<KeyAction> {
    if label == "Tab"@ {
        Some(KeyAction::Code(kc::TAB))
    } else if label == "Enter"@ {
        Some(KeyAction::Code(kc::ENTER))
    } else if label == "Space"@ {
        Some(KeyAction::Code(kc::SPACE))
    } else if label == "⌫"@ {
        Some(KeyAction::Code(kc::BACKSPACE))
    } else if label == "Esc"@ {
        Some(KeyAction::Code(kc::ESC))
    } else if label == "←"@ {
        Some(KeyAction::Code(kc::LEFT))
    } else if label == "↓"@ {
        Some(KeyAction::Code(kc::DOWN))
    } else if label == "↑"@ {
        Some(KeyAction::Code(kc::UP))
    } else if label == "→"@ {
        Some(KeyAction::Code(kc::RIGHT))
    } else if label == "Home"@ {
        Some(KeyAction::Code(kc::HOME))
    } else if label == "End"@ {
        Some(KeyAction::Code(kc::END))
    } else if label == "PgUp"@ {
        Some(KeyAction::Code(kc::PGUP))
    } else if label == "PgDn"@ {
        Some(KeyAction::Code(kc::PGDN))
    } else if label == "Insert"@ {
        Some(KeyAction::Code(kc::INSERT))
    } else if label == "Del"@ {
        Some(KeyAction::Code(kc::DELETE))
    } else if label == "F1"@ {
        Some(KeyAction::Code(kc::F1))
    } else if label == "F2"@ {
        Some(KeyAction::Code(kc::F2))
    } else if label == "F3"@ {
        Some(KeyAction::Code(kc::F3))
    } else if label == "F4"@ {
        Some(KeyAction::Code(kc::F4))
    } else if label == "F5"@ {
        Some(KeyAction::Code(kc::F5))
    } else if label == "F6"@ {
        Some(KeyAction::Code(kc::F6))
    } else if label == "F7"@ {
        Some(KeyAction::Code(kc::F7))
    } else if label == "F8"@ {
        Some(KeyAction::Code(kc::F8))
    } else if label == "F9"@ {
        Some(KeyAction::Code(kc::F9))
    } else if label == "F10"@ {
        Some(KeyAction::Code(kc::F10))
    } else if label == "F11"@ {
        Some(KeyAction::Code(kc::F11))
    } else if label == "F12"@ {
        Some(KeyAction::Code(kc::F12))
    } else if label == "Ctrl"@ {
        Some(KeyAction::Modifier(Mod::Ctrl))
    } else if label == "Alt"@ {
        Some(KeyAction::Modifier(Mod::Alt))
    } else if label == "Super"@ {
        Some(KeyAction::Modifier(Mod::Super))
    } else if label == "⇧"@ {
        Some(KeyAction::Modifier(Mod::Shift))
    } else if label == "Caps"@ {
        Some(KeyAction::Modifier(Mod::Shift))
    } else if label == "ABC"@ {
        Some(KeyAction::Layer(Layer::Letters))
    } else if label == "?123"@ {
        Some(KeyAction::Layer(Layer::Symbols))
    } else {
        None
    }
}

/// A key with a named label does what the name says.
pub open spec fn named_key_consistent(key: KeyView) -> bool {
    named_key_action(key.label) is Some ==> key.action == named_key_action(key.label)->0
}

/// On every layer, every key with a named label does what its name says:
/// "Enter" sends ENTER, "F12" sends F12, "Ctrl" toggles Ctrl, "ABC" switches to
/// the letters; no emoji key carries such a name.
pub proof fn lemma_named_keys(layer: Layer)
    ensures
        forall|r: int, j: int|
            0 <= r < layer_table(layer).len() && 0 <= j < layer_table(layer)[r].len()
                ==> named_key_consistent(#[trigger] layer_table(layer)[r][j]),
{
    if layer == Layer::Letters {
        lemma_named_letters_row0();
        lemma_named_letters_row1();
        lemma_named_letters_row2();
        lemma_named_letters_row3();
        lemma_named_letters_row4();
        let t = letters_table();
        assert forall|r: int, j: int| 0 <= r < t.len() && 0 <= j < t[r].len() implies named_key_consistent(#[trigger] t[r][j]) by {
            assert(r == 0 || r == 1 || r == 2 || r == 3 || r == 4);
        }
    }
    if layer == Layer::Symbols {
        lemma_named_symbols_row0();
        lemma_named_symbols_row1();
        lemma_named_symbols_row2();
        lemma_named_symbols_row3();
        let t = symbols_table();
        assert forall|r: int, j: int| 0 <= r < t.len() && 0 <= j < t[r].len() implies named_key_consistent(#[trigger] t[r][j]) by {
            assert(r == 0 || r == 1 || r == 2 || r == 3);
        }
    }
    if layer == Layer::Nav {
        lemma_named_nav_row0();
        lemma_named_nav_row1();
        lemma_named_nav_row2();
        lemma_named_nav_row3();
        let t = nav_table();
        assert forall|r: int, j: int| 0 <= r < t.len() && 0 <= j < t[r].len() implies named_key_consistent(#[trigger] t[r][j]) by {
            assert(r == 0 || r == 1 || r == 2 || r == 3);
        }
    }
    if layer == Layer::Emoji {
        lemma_named_emoji_row0();
        lemma_named_emoji_row1();
        lemma_named_emoji_row2();
        lemma_named_emoji_row3();
        lemma_named_emoji_row4();
        lemma_named_emoji_row5();
        let t = emoji_table();
        assert forall|r: int, j: int| 0 <= r < t.len() && 0 <= j < t[r].len() implies named_key_consistent(#[trigger] t[r][j]) by {
            assert(r == 0 || r == 1 || r == 2 || r == 3 || r == 4 || r == 5);
        }
    }
}

/// The characters of the named labels.
proof fn lemma_named_labels()
    ensures
        "Tab"@.len() == 3 && "Tab"@[0] == 'T' && "Tab"@[1] == 'a' && "Tab"@[2] == 'b',
        "Enter"@.len() == 5 && "Enter"@[0] == 'E' && "Enter"@[1] == 'n' && "Enter"@[2] == 't' && "Enter"@[3] == 'e' && "Enter"@[4] == 'r',
        "Space"@.len() == 5 && "Space"@[0] == 'S' && "Space"@[1] == 'p' && "Space"@[2] == 'a' && "Space"@[3] == 'c' && "Space"@[4] == 'e',
        "⌫"@.len() == 1 && "⌫"@[0] == '⌫',
        "Esc"@.len() == 3 && "Esc"@[0] == 'E' && "Esc"@[1] == 's' && "Esc"@[2] == 'c',
        "←"@.len() == 1 && "←"@[0] == '←',
        "↓"@.len() == 1 && "↓"@[0] == '↓',
        "↑"@.len() == 1 && "↑"@[0] == '↑',
        "→"@.len() == 1 && "→"@[0] == '→',
        "Home"@.len() == 4 && "Home"@[0] == 'H' && "Home"@[1] == 'o' && "Home"@[2] == 'm' && "Home"@[3] == 'e',
        "End"@.len() == 3 && "End"@[0] == 'E' && "End"@[1] == 'n' && "End"@[2] == 'd',
        "PgUp"@.len() == 4 && "PgUp"@[0] == 'P' && "PgUp"@[1] == 'g' && "PgUp"@[2] == 'U' && "PgUp"@[3] == 'p',
        "PgDn"@.len() == 4 && "PgDn"@[0] == 'P' && "PgDn"@[1] == 'g' && "PgDn"@[2] == 'D' && "PgDn"@[3] == 'n',
        "Insert"@.len() == 6 && "Insert"@[0] == 'I' && "Insert"@[1] == 'n' && "Insert"@[2] == 's' && "Insert"@[3] == 'e' && "Insert"@[4] == 'r' && "Insert"@[5] == 't',
        "Del"@.len() == 3 && "Del"@[0] == 'D' && "Del"@[1] == 'e' && "Del"@[2] == 'l',
        "F1"@.len() == 2 && "F1"@[0] == 'F' && "F1"@[1] == '1',
        "F2"@.len() == 2 && "F2"@[0] == 'F' && "F2"@[1] == '2',
        "F3"@.len() == 2 && "F3"@[0] == 'F' && "F3"@[1] == '3',
        "F4"@.len() == 2 && "F4"@[0] == 'F' && "F4"@[1] == '4',
        "F5"@.len() == 2 && "F5"@[0] == 'F' && "F5"@[1] == '5',
        "F6"@.len() == 2 && "F6"@[0] == 'F' && "F6"@[1] == '6',
        "F7"@.len() == 2 && "F7"@[0] == 'F' && "F7"@[1] == '7',
        "F8"@.len() == 2 && "F8"@[0] == 'F' && "F8"@[1] == '8',
        "F9"@.len() == 2 && "F9"@[0] == 'F' && "F9"@[1] == '9',
        "F10"@.len() == 3 && "F10"@[0] == 'F' && "F10"@[1] == '1' && "F10"@[2] == '0',
        "F11"@.len() == 3 && "F11"@[0] == 'F' && "F11"@[1] == '1' && "F11"@[2] == '1',
        "F12"@.len() == 3 && "F12"@[0] == 'F' && "F12"@[1] == '1' && "F12"@[2] == '2',
        "Ctrl"@.len() == 4 && "Ctrl"@[0] == 'C' && "Ctrl"@[1] == 't' && "Ctrl"@[2] == 'r' && "Ctrl"@[3] == 'l',
        "Alt"@.len() == 3 && "Alt"@[0] == 'A' && "Alt"@[1] == 'l' && "Alt"@[2] == 't',
        "Super"@.len() == 5 && "Super"@[0] == 'S' && "Super"@[1] == 'u' && "Super"@[2] == 'p' && "Super"@[3] == 'e' && "Super"@[4] == 'r',
        "⇧"@.len() == 1 && "⇧"@[0] == '⇧',
        "Caps"@.len() == 4 && "Caps"@[0] == 'C' && "Caps"@[1] == 'a' && "Caps"@[2] == 'p' && "Caps"@[3] == 's',
        "ABC"@.len() == 3 && "ABC"@[0] == 'A' && "ABC"@[1] == 'B' && "ABC"@[2] == 'C',
        "?123"@.len() == 4 && "?123"@[0] == '?' && "?123"@[1] == '1' && "?123"@[2] == '2' && "?123"@[3] == '3',
{
    reveal_strlit("Tab");
    assert("Tab"@.len() == 3 && "Tab"@[0] == 'T' && "Tab"@[1] == 'a' && "Tab"@[2] == 'b');
    reveal_strlit("Enter");
    assert("Enter"@.len() == 5 && "Enter"@[0] == 'E' && "Enter"@[1] == 'n' && "Enter"@[2] == 't' && "Enter"@[3] == 'e' && "Enter"@[4] == 'r');
    reveal_strlit("Space");
    assert("Space"@.len() == 5 && "Space"@[0] == 'S' && "Space"@[1] == 'p' && "Space"@[2] == 'a' && "Space"@[3] == 'c' && "Space"@[4] == 'e');
    reveal_strlit("⌫");
    assert("⌫"@.len() == 1 && "⌫"@[0] == '⌫');
    reveal_strlit("Esc");
    assert("Esc"@.len() == 3 && "Esc"@[0] == 'E' && "Esc"@[1] == 's' && "Esc"@[2] == 'c');
    reveal_strlit("←");
    assert("←"@.len() == 1 && "←"@[0] == '←');
    reveal_strlit("↓");
    assert("↓"@.len() == 1 && "↓"@[0] == '↓');
    reveal_strlit("↑");
    assert("↑"@.len() == 1 && "↑"@[0] == '↑');
    reveal_strlit("→");
    assert("→"@.len() == 1 && "→"@[0] == '→');
    reveal_strlit("Home");
    assert("Home"@.len() == 4 && "Home"@[0] == 'H' && "Home"@[1] == 'o' && "Home"@[2] == 'm' && "Home"@[3] == 'e');
    reveal_strlit("End");
    assert("End"@.len() == 3 && "End"@[0] == 'E' && "End"@[1] == 'n' && "End"@[2] == 'd');
    reveal_strlit("PgUp");
    assert("PgUp"@.len() == 4 && "PgUp"@[0] == 'P' && "PgUp"@[1] == 'g' && "PgUp"@[2] == 'U' && "PgUp"@[3] == 'p');
    reveal_strlit("PgDn");
    assert("PgDn"@.len() == 4 && "PgDn"@[0] == 'P' && "PgDn"@[1] == 'g' && "PgDn"@[2] == 'D' && "PgDn"@[3] == 'n');
    reveal_strlit("Insert");
    assert("Insert"@.len() == 6 && "Insert"@[0] == 'I' && "Insert"@[1] == 'n' && "Insert"@[2] == 's' && "Insert"@[3] == 'e' && "Insert"@[4] == 'r' && "Insert"@[5] == 't');
    reveal_strlit("Del");
    assert("Del"@.len() == 3 && "Del"@[0] == 'D' && "Del"@[1] == 'e' && "Del"@[2] == 'l');
    reveal_strlit("F1");
    assert("F1"@.len() == 2 && "F1"@[0] == 'F' && "F1"@[1] == '1');
    reveal_strlit("F2");
    assert("F2"@.len() == 2 && "F2"@[0] == 'F' && "F2"@[1] == '2');
    reveal_strlit("F3");
    assert("F3"@.len() == 2 && "F3"@[0] == 'F' && "F3"@[1] == '3');
    reveal_strlit("F4");
    assert("F4"@.len() == 2 && "F4"@[0] == 'F' && "F4"@[1] == '4');
    reveal_strlit("F5");
    assert("F5"@.len() == 2 && "F5"@[0] == 'F' && "F5"@[1] == '5');
    reveal_strlit("F6");
    assert("F6"@.len() == 2 && "F6"@[0] == 'F' && "F6"@[1] == '6');
    reveal_strlit("F7");
    assert("F7"@.len() == 2 && "F7"@[0] == 'F' && "F7"@[1] == '7');
    reveal_strlit("F8");
    assert("F8"@.len() == 2 && "F8"@[0] == 'F' && "F8"@[1] == '8');
    reveal_strlit("F9");
    assert("F9"@.len() == 2 && "F9"@[0] == 'F' && "F9"@[1] == '9');
    reveal_strlit("F10");
    assert("F10"@.len() == 3 && "F10"@[0] == 'F' && "F10"@[1] == '1' && "F10"@[2] == '0');
    reveal_strlit("F11");
    assert("F11"@.len() == 3 && "F11"@[0] == 'F' && "F11"@[1] == '1' && "F11"@[2] == '1');
    reveal_strlit("F12");
    assert("F12"@.len() == 3 && "F12"@[0] == 'F' && "F12"@[1] == '1' && "F12"@[2] == '2');
    reveal_strlit("Ctrl");
    assert("Ctrl"@.len() == 4 && "Ctrl"@[0] == 'C' && "Ctrl"@[1] == 't' && "Ctrl"@[2] == 'r' && "Ctrl"@[3] == 'l');
    reveal_strlit("Alt");
    assert("Alt"@.len() == 3 && "Alt"@[0] == 'A' && "Alt"@[1] == 'l' && "Alt"@[2] == 't');
    reveal_strlit("Super");
    assert("Super"@.len() == 5 && "Super"@[0] == 'S' && "Super"@[1] == 'u' && "Super"@[2] == 'p' && "Super"@[3] == 'e' && "Super"@[4] == 'r');
    reveal_strlit("⇧");
    assert("⇧"@.len() == 1 && "⇧"@[0] == '⇧');
    reveal_strlit("Caps");
    assert("Caps"@.len() == 4 && "Caps"@[0] == 'C' && "Caps"@[1] == 'a' && "Caps"@[2] == 'p' && "Caps"@[3] == 's');
    reveal_strlit("ABC");
    assert("ABC"@.len() == 3 && "ABC"@[0] == 'A' && "ABC"@[1] == 'B' && "ABC"@[2] == 'C');
    reveal_strlit("?123");
    assert("?123"@.len() == 4 && "?123"@[0] == '?' && "?123"@[1] == '1' && "?123"@[2] == '2' && "?123"@[3] == '3');
}

proof fn lemma_named_letters_row0()
    ensures
        forall|j: int| 0 <= j < letters_table()[0].len() ==> named_key_consistent(#[trigger] letters_table()[0][j]),
{
    lemma_named_labels();
    reveal_strlit("1");
    assert("1"@.len() == 1 && "1"@[0] == '1');
    reveal_strlit("2");
    assert("2"@.len() == 1 && "2"@[0] == '2');
    reveal_strlit("3");
    assert("3"@.len() == 1 && "3"@[0] == '3');
    reveal_strlit("4");
    assert("4"@.len() == 1 && "4"@[0] == '4');
    reveal_strlit("5");
    assert("5"@.len() == 1 && "5"@[0] == '5');
    reveal_strlit("6");
    assert("6"@.len() == 1 && "6"@[0] == '6');
    reveal_strlit("7");
    assert("7"@.len() == 1 && "7"@[0] == '7');
    reveal_strlit("8");
    assert("8"@.len() == 1 && "8"@[0] == '8');
    reveal_strlit("9");
    assert("9"@.len() == 1 && "9"@[0] == '9');
    reveal_strlit("0");
    assert("0"@.len() == 1 && "0"@[0] == '0');
    reveal_strlit("-");
    assert("-"@.len() == 1 && "-"@[0] == '-');
    reveal_strlit("=");
    assert("="@.len() == 1 && "="@[0] == '=');
    let row = letters_table()[0];
    assert forall|j: int| 0 <= j < row.len() implies named_key_consistent(#[trigger] row[j]) by {
        assert(j == 0 || j == 1 || j == 2 || j == 3 || j == 4 || j == 5 || j == 6 || j == 7 || j == 8 || j == 9 || j == 10 || j == 11 || j == 12);
    }
}

proof fn lemma_named_letters_row1()
    ensures
        forall|j: int| 0 <= j < letters_table()[1].len() ==> named_key_consistent(#[trigger] letters_table()[1][j]),
{
    lemma_named_labels();
    reveal_strlit("q");
    assert("q"@.len() == 1 && "q"@[0] == 'q');
    reveal_strlit("w");
    assert("w"@.len() == 1 && "w"@[0] == 'w');
    reveal_strlit("e");
    assert("e"@.len() == 1 && "e"@[0] == 'e');
    reveal_strlit("r");
    assert("r"@.len() == 1 && "r"@[0] == 'r');
    reveal_strlit("t");
    assert("t"@.len() == 1 && "t"@[0] == 't');
    reveal_strlit("y");
    assert("y"@.len() == 1 && "y"@[0] == 'y');
    reveal_strlit("u");
    assert("u"@.len() == 1 && "u"@[0] == 'u');
    reveal_strlit("i");
    assert("i"@.len() == 1 && "i"@[0] == 'i');
    reveal_strlit("o");
    assert("o"@.len() == 1 && "o"@[0] == 'o');
    reveal_strlit("p");
    assert("p"@.len() == 1 && "p"@[0] == 'p');
    reveal_strlit("[");
    assert("["@.len() == 1 && "["@[0] == '[');
    reveal_strlit("]");
    assert("]"@.len() == 1 && "]"@[0] == ']');
    reveal_strlit("\\");
    assert("\\"@.len() == 1 && "\\"@[0] == '\\');
    let row = letters_table()[1];
    assert forall|j: int| 0 <= j < row.len() implies named_key_consistent(#[trigger] row[j]) by {
        assert(j == 0 || j == 1 || j == 2 || j == 3 || j == 4 || j == 5 || j == 6 || j == 7 || j == 8 || j == 9 || j == 10 || j == 11 || j == 12 || j == 13);
    }
}

proof fn lemma_named_letters_row2()
    ensures
        forall|j: int| 0 <= j < letters_table()[2].len() ==> named_key_consistent(#[trigger] letters_table()[2][j]),
{
    lemma_named_labels();
    reveal_strlit("a");
    assert("a"@.len() == 1 && "a"@[0] == 'a');
    reveal_strlit("s");
    assert("s"@.len() == 1 && "s"@[0] == 's');
    reveal_strlit("d");
    assert("d"@.len() == 1 && "d"@[0] == 'd');
    reveal_strlit("f");
    assert("f"@.len() == 1 && "f"@[0] == 'f');
    reveal_strlit("g");
    assert("g"@.len() == 1 && "g"@[0] == 'g');
    reveal_strlit("h");
    assert("h"@.len() == 1 && "h"@[0] == 'h');
    reveal_strlit("j");
    assert("j"@.len() == 1 && "j"@[0] == 'j');
    reveal_strlit("k");
    assert("k"@.len() == 1 && "k"@[0] == 'k');
    reveal_strlit("l");
    assert("l"@.len() == 1 && "l"@[0] == 'l');
    reveal_strlit(";");
    assert(";"@.len() == 1 && ";"@[0] == ';');
    reveal_strlit("'");
    assert("'"@.len() == 1 && "'"@[0] == '\'');
    let row = letters_table()[2];
    assert forall|j: int| 0 <= j < row.len() implies named_key_consistent(#[trigger] row[j]) by {
        assert(j == 0 || j == 1 || j == 2 || j == 3 || j == 4 || j == 5 || j == 6 || j == 7 || j == 8 || j == 9 || j == 10 || j == 11 || j == 12);
    }
}

proof fn lemma_named_letters_row3()
    ensures
        forall|j: int| 0 <= j < letters_table()[3].len() ==> named_key_consistent(#[trigger] letters_table()[3][j]),
{
    lemma_named_labels();
    reveal_strlit("z");
    assert("z"@.len() == 1 && "z"@[0] == 'z');
    reveal_strlit("x");
    assert("x"@.len() == 1 && "x"@[0] == 'x');
    reveal_strlit("c");
    assert("c"@.len() == 1 && "c"@[0] == 'c');
    reveal_strlit("v");
    assert("v"@.len() == 1 && "v"@[0] == 'v');
    reveal_strlit("b");
    assert("b"@.len() == 1 && "b"@[0] == 'b');
    reveal_strlit("n");
    assert("n"@.len() == 1 && "n"@[0] == 'n');
    reveal_strlit("m");
    assert("m"@.len() == 1 && "m"@[0] == 'm');
    reveal_strlit(",");
    assert(","@.len() == 1 && ","@[0] == ',');
    reveal_strlit(".");
    assert("."@.len() == 1 && "."@[0] == '.');
    reveal_strlit("/");
    assert("/"@.len() == 1 && "/"@[0] == '/');
    let row = letters_table()[3];
    assert forall|j: int| 0 <= j < row.len() implies named_key_consistent(#[trigger] row[j]) by {
        assert(j == 0 || j == 1 || j == 2 || j == 3 || j == 4 || j == 5 || j == 6 || j == 7 || j == 8 || j == 9 || j == 10 || j == 11);
    }
}

proof fn lemma_named_letters_row4()
    ensures
        forall|j: int| 0 <= j < letters_table()[4].len() ==> named_key_consistent(#[trigger] letters_table()[4][j]),
{
    lemma_named_labels();
    reveal_strlit("😀");
    assert("😀"@.len() == 1 && "😀"@[0] == '😀');
    let row = letters_table()[4];
    assert forall|j: int| 0 <= j < row.len() implies named_key_consistent(#[trigger] row[j]) by {
        assert(j == 0 || j == 1 || j == 2 || j == 3 || j == 4 || j == 5 || j == 6 || j == 7 || j == 8 || j == 9);
    }
}

proof fn lemma_named_symbols_row0()
    ensures
        forall|j: int| 0 <= j < symbols_table()[0].len() ==> named_key_consistent(#[trigger] symbols_table()[0][j]),
{
    lemma_named_labels();
    reveal_strlit("1");
    assert("1"@.len() == 1 && "1"@[0] == '1');
    reveal_strlit("2");
    assert("2"@.len() == 1 && "2"@[0] == '2');
    reveal_strlit("3");
    assert("3"@.len() == 1 && "3"@[0] == '3');
    reveal_strlit("4");
    assert("4"@.len() == 1 && "4"@[0] == '4');
    reveal_strlit("5");
    assert("5"@.len() == 1 && "5"@[0] == '5');
    reveal_strlit("6");
    assert("6"@.len() == 1 && "6"@[0] == '6');
    reveal_strlit("7");
    assert("7"@.len() == 1 && "7"@[0] == '7');
    reveal_strlit("8");
    assert("8"@.len() == 1 && "8"@[0] == '8');
    reveal_strlit("9");
    assert("9"@.len() == 1 && "9"@[0] == '9');
    reveal_strlit("0");
    assert("0"@.len() == 1 && "0"@[0] == '0');
    let row = symbols_table()[0];
    assert forall|j: int| 0 <= j < row.len() implies named_key_consistent(#[trigger] row[j]) by {
        assert(j == 0 || j == 1 || j == 2 || j == 3 || j == 4 || j == 5 || j == 6 || j == 7 || j == 8 || j == 9 || j == 10);
    }
}

proof fn lemma_named_symbols_row1()
    ensures
        forall|j: int| 0 <= j < symbols_table()[1].len() ==> named_key_consistent(#[trigger] symbols_table()[1][j]),
{
    lemma_named_labels();
    reveal_strlit("`");
    assert("`"@.len() == 1 && "`"@[0] == '`');
    reveal_strlit("-");
    assert("-"@.len() == 1 && "-"@[0] == '-');
    reveal_strlit("=");
    assert("="@.len() == 1 && "="@[0] == '=');
    reveal_strlit("[");
    assert("["@.len() == 1 && "["@[0] == '[');
    reveal_strlit("]");
    assert("]"@.len() == 1 && "]"@[0] == ']');
    reveal_strlit("\\");
    assert("\\"@.len() == 1 && "\\"@[0] == '\\');
    reveal_strlit(";");
    assert(";"@.len() == 1 && ";"@[0] == ';');
    reveal_strlit("'");
    assert("'"@.len() == 1 && "'"@[0] == '\'');
    reveal_strlit(",");
    assert(","@.len() == 1 && ","@[0] == ',');
    reveal_strlit(".");
    assert("."@.len() == 1 && "."@[0] == '.');
    reveal_strlit("/");
    assert("/"@.len() == 1 && "/"@[0] == '/');
    let row = symbols_table()[1];
    assert forall|j: int| 0 <= j < row.len() implies named_key_consistent(#[trigger] row[j]) by {
        assert(j == 0 || j == 1 || j == 2 || j == 3 || j == 4 || j == 5 || j == 6 || j == 7 || j == 8 || j == 9 || j == 10);
    }
}

proof fn lemma_named_symbols_row2()
    ensures
        forall|j: int| 0 <= j < symbols_table()[2].len() ==> named_key_consistent(#[trigger] symbols_table()[2][j]),
{
    lemma_named_labels();
    reveal_strlit("!");
    assert("!"@.len() == 1 && "!"@[0] == '!');
    reveal_strlit("@");
    assert("@"@.len() == 1 && "@"@[0] == '@');
    reveal_strlit("#");
    assert("#"@.len() == 1 && "#"@[0] == '#');
    reveal_strlit("$");
    assert("$"@.len() == 1 && "$"@[0] == '$');
    reveal_strlit("%");
    assert("%"@.len() == 1 && "%"@[0] == '%');
    reveal_strlit("^");
    assert("^"@.len() == 1 && "^"@[0] == '^');
    reveal_strlit("&");
    assert("&"@.len() == 1 && "&"@[0] == '&');
    reveal_strlit("*");
    assert("*"@.len() == 1 && "*"@[0] == '*');
    let row = symbols_table()[2];
    assert forall|j: int| 0 <= j < row.len() implies named_key_consistent(#[trigger] row[j]) by {
        assert(j == 0 || j == 1 || j == 2 || j == 3 || j == 4 || j == 5 || j == 6 || j == 7 || j == 8 || j == 9);
    }
}

proof fn lemma_named_symbols_row3()
    ensures
        forall|j: int| 0 <= j < symbols_table()[3].len() ==> named_key_consistent(#[trigger] symbols_table()[3][j]),
{
    lemma_named_labels();
    reveal_strlit("😀");
    assert("😀"@.len() == 1 && "😀"@[0] == '😀');
    let row = symbols_table()[3];
    assert forall|j: int| 0 <= j < row.len() implies named_key_consistent(#[trigger] row[j]) by {
        assert(j == 0 || j == 1 || j == 2 || j == 3 || j == 4 || j == 5 || j == 6 || j == 7 || j == 8);
    }
}

proof fn lemma_named_nav_row0()
    ensures
        forall|j: int| 0 <= j < nav_table()[0].len() ==> named_key_consistent(#[trigger] nav_table()[0][j]),
{
    lemma_named_labels();
    let row = nav_table()[0];
    assert forall|j: int| 0 <= j < row.len() implies named_key_consistent(#[trigger] row[j]) by {
        assert(j == 0 || j == 1 || j == 2 || j == 3 || j == 4 || j == 5 || j == 6 || j == 7 || j == 8 || j == 9 || j == 10 || j == 11 || j == 12);
    }
}

proof fn lemma_named_nav_row1()
    ensures
        forall|j: int| 0 <= j < nav_table()[1].len() ==> named_key_consistent(#[trigger] nav_table()[1][j]),
{
    lemma_named_labels();
    let row = nav_table()[1];
    assert forall|j: int| 0 <= j < row.len() implies named_key_consistent(#[trigger] row[j]) by {
        assert(j == 0 || j == 1 || j == 2 || j == 3 || j == 4 || j == 5 || j == 6);
    }
}

proof fn lemma_named_nav_row2()
    ensures
        forall|j: int| 0 <= j < nav_table()[2].len() ==> named_key_consistent(#[trigger] nav_table()[2][j]),
{
    lemma_named_labels();
    let row = nav_table()[2];
    assert forall|j: int| 0 <= j < row.len() implies named_key_consistent(#[trigger] row[j]) by {
        assert(j == 0 || j == 1 || j == 2 || j == 3 || j == 4 || j == 5);
    }
}

proof fn lemma_named_nav_row3()
    ensures
        forall|j: int| 0 <= j < nav_table()[3].len() ==> named_key_consistent(#[trigger] nav_table()[3][j]),
{
    lemma_named_labels();
    let row = nav_table()[3];
    assert forall|j: int| 0 <= j < row.len() implies named_key_consistent(#[trigger] row[j]) by {
        assert(j == 0 || j == 1 || j == 2 || j == 3 || j == 4 || j == 5);
    }
}

proof fn lemma_named_emoji_row0()
    ensures
        forall|j: int| 0 <= j < emoji_table()[0].len() ==> named_key_consistent(#[trigger] emoji_table()[0][j]),
{
    lemma_named_labels();
    reveal_strlit("😀");
    assert("😀"@.len() == 1 && "😀"@[0] == '😀');
    reveal_strlit("😃");
    assert("😃"@.len() == 1 && "😃"@[0] == '😃');
    reveal_strlit("😄");
    assert("😄"@.len() == 1 && "😄"@[0] == '😄');
    reveal_strlit("😁");
    assert("😁"@.len() == 1 && "😁"@[0] == '😁');
    reveal_strlit("😆");
    assert("😆"@.len() == 1 && "😆"@[0] == '😆');
    reveal_strlit("😅");
    assert("😅"@.len() == 1 && "😅"@[0] == '😅');
    reveal_strlit("😂");
    assert("😂"@.len() == 1 && "😂"@[0] == '😂');
    reveal_strlit("🤣");
    assert("🤣"@.len() == 1 && "🤣"@[0] == '🤣');
    reveal_strlit("😊");
    assert("😊"@.len() == 1 && "😊"@[0] == '😊');
    reveal_strlit("😇");
    assert("😇"@.len() == 1 && "😇"@[0] == '😇');
    reveal_strlit("🙂");
    assert("🙂"@.len() == 1 && "🙂"@[0] == '🙂');
    reveal_strlit("🙃");
    assert("🙃"@.len() == 1 && "🙃"@[0] == '🙃');
    reveal_strlit("😉");
    assert("😉"@.len() == 1 && "😉"@[0] == '😉');
    reveal_strlit("😌");
    assert("😌"@.len() == 1 && "😌"@[0] == '😌');
    reveal_strlit("😍");
    assert("😍"@.len() == 1 && "😍"@[0] == '😍');
    let g = emoji_glyphs()[0];
    assert(emoji_table()[0] == g.map_values(|c: Seq<char>| spec_glyph_key(c)));
    assert forall|j: int| 0 <= j < g.len() implies named_key_action(#[trigger] g[j]) is None by {
        assert(j == 0 || j == 1 || j == 2 || j == 3 || j == 4 || j == 5 || j == 6 || j == 7 || j == 8 || j == 9 || j == 10 || j == 11 || j == 12 || j == 13 || j == 14);
    }
}

proof fn lemma_named_emoji_row1()
    ensures
        forall|j: int| 0 <= j < emoji_table()[1].len() ==> named_key_consistent(#[trigger] emoji_table()[1][j]),
{
    lemma_named_labels();
    reveal_strlit("🥰");
    assert("🥰"@.len() == 1 && "🥰"@[0] == '🥰');
    reveal_strlit("😘");
    assert("😘"@.len() == 1 && "😘"@[0] == '😘');
    reveal_strlit("😗");
    assert("😗"@.len() == 1 && "😗"@[0] == '😗');
    reveal_strlit("😙");
    assert("😙"@.len() == 1 && "😙"@[0] == '😙');
    reveal_strlit("😚");
    assert("😚"@.len() == 1 && "😚"@[0] == '😚');
    reveal_strlit("😋");
    assert("😋"@.len() == 1 && "😋"@[0] == '😋');
    reveal_strlit("😛");
    assert("😛"@.len() == 1 && "😛"@[0] == '😛');
    reveal_strlit("😜");
    assert("😜"@.len() == 1 && "😜"@[0] == '😜');
    reveal_strlit("🤪");
    assert("🤪"@.len() == 1 && "🤪"@[0] == '🤪');
    reveal_strlit("😝");
    assert("😝"@.len() == 1 && "😝"@[0] == '😝');
    reveal_strlit("🤑");
    assert("🤑"@.len() == 1 && "🤑"@[0] == '🤑');
    reveal_strlit("🤗");
    assert("🤗"@.len() == 1 && "🤗"@[0] == '🤗');
    reveal_strlit("🤭");
    assert("🤭"@.len() == 1 && "🤭"@[0] == '🤭');
    reveal_strlit("🤫");
    assert("🤫"@.len() == 1 && "🤫"@[0] == '🤫');
    reveal_strlit("🤔");
    assert("🤔"@.len() == 1 && "🤔"@[0] == '🤔');
    let g = emoji_glyphs()[1];
    assert(emoji_table()[1] == g.map_values(|c: Seq<char>| spec_glyph_key(c)));
    assert forall|j: int| 0 <= j < g.len() implies named_key_action(#[trigger] g[j]) is None by {
        assert(j == 0 || j == 1 || j == 2 || j == 3 || j == 4 || j == 5 || j == 6 || j == 7 || j == 8 || j == 9 || j == 10 || j == 11 || j == 12 || j == 13 || j == 14);
    }
}

proof fn lemma_named_emoji_row2()
    ensures
        forall|j: int| 0 <= j < emoji_table()[2].len() ==> named_key_consistent(#[trigger] emoji_table()[2][j]),
{
    lemma_named_labels();
    reveal_strlit("🤐");
    assert("🤐"@.len() == 1 && "🤐"@[0] == '🤐');
    reveal_strlit("🤨");
    assert("🤨"@.len() == 1 && "🤨"@[0] == '🤨');
    reveal_strlit("😐");
    assert("😐"@.len() == 1 && "😐"@[0] == '😐');
    reveal_strlit("😑");
    assert("😑"@.len() == 1 && "😑"@[0] == '😑');
    reveal_strlit("😶");
    assert("😶"@.len() == 1 && "😶"@[0] == '😶');
    reveal_strlit("😏");
    assert("😏"@.len() == 1 && "😏"@[0] == '😏');
    reveal_strlit("😒");
    assert("😒"@.len() == 1 && "😒"@[0] == '😒');
    reveal_strlit("🙄");
    assert("🙄"@.len() == 1 && "🙄"@[0] == '🙄');
    reveal_strlit("😬");
    assert("😬"@.len() == 1 && "😬"@[0] == '😬');
    reveal_strlit("🤥");
    assert("🤥"@.len() == 1 && "🤥"@[0] == '🤥');
    reveal_strlit("😌");
    assert("😌"@.len() == 1 && "😌"@[0] == '😌');
    reveal_strlit("😔");
    assert("😔"@.len() == 1 && "😔"@[0] == '😔');
    reveal_strlit("😪");
    assert("😪"@.len() == 1 && "😪"@[0] == '😪');
    reveal_strlit("🤤");
    assert("🤤"@.len() == 1 && "🤤"@[0] == '🤤');
    reveal_strlit("😴");
    assert("😴"@.len() == 1 && "😴"@[0] == '😴');
    let g = emoji_glyphs()[2];
    assert(emoji_table()[2] == g.map_values(|c: Seq<char>| spec_glyph_key(c)));
    assert forall|j: int| 0 <= j < g.len() implies named_key_action(#[trigger] g[j]) is None by {
        assert(j == 0 || j == 1 || j == 2 || j == 3 || j == 4 || j == 5 || j == 6 || j == 7 || j == 8 || j == 9 || j == 10 || j == 11 || j == 12 || j == 13 || j == 14);
    }
}

proof fn lemma_named_emoji_row3()
    ensures
        forall|j: int| 0 <= j < emoji_table()[3].len() ==> named_key_consistent(#[trigger] emoji_table()[3][j]),
{
    lemma_named_labels();
    reveal_strlit("👍");
    assert("👍"@.len() == 1 && "👍"@[0] == '👍');
    reveal_strlit("👎");
    assert("👎"@.len() == 1 && "👎"@[0] == '👎');
    reveal_strlit("👌");
    assert("👌"@.len() == 1 && "👌"@[0] == '👌');
    reveal_strlit("✌️");
    assert("✌️"@.len() == 2 && "✌️"@[0] == '✌' && "✌️"@[1] == '️');
    reveal_strlit("🤞");
    assert("🤞"@.len() == 1 && "🤞"@[0] == '🤞');
    reveal_strlit("🤟");
    assert("🤟"@.len() == 1 && "🤟"@[0] == '🤟');
    reveal_strlit("🤘");
    assert("🤘"@.len() == 1 && "🤘"@[0] == '🤘');
    reveal_strlit("👏");
    assert("👏"@.len() == 1 && "👏"@[0] == '👏');
    reveal_strlit("🙌");
    assert("🙌"@.len() == 1 && "🙌"@[0] == '🙌');
    reveal_strlit("👐");
    assert("👐"@.len() == 1 && "👐"@[0] == '👐');
    reveal_strlit("🤲");
    assert("🤲"@.len() == 1 && "🤲"@[0] == '🤲');
    reveal_strlit("🤝");
    assert("🤝"@.len() == 1 && "🤝"@[0] == '🤝');
    reveal_strlit("🙏");
    assert("🙏"@.len() == 1 && "🙏"@[0] == '🙏');
    reveal_strlit("✍️");
    assert("✍️"@.len() == 2 && "✍️"@[0] == '✍' && "✍️"@[1] == '️');
    reveal_strlit("💪");
    assert("💪"@.len() == 1 && "💪"@[0] == '💪');
    let g = emoji_glyphs()[3];
    assert(emoji_table()[3] == g.map_values(|c: Seq<char>| spec_glyph_key(c)));
    assert forall|j: int| 0 <= j < g.len() implies named_key_action(#[trigger] g[j]) is None by {
        assert(j == 0 || j == 1 || j == 2 || j == 3 || j == 4 || j == 5 || j == 6 || j == 7 || j == 8 || j == 9 || j == 10 || j == 11 || j == 12 || j == 13 || j == 14);
    }
}

proof fn lemma_named_emoji_row4()
    ensures
        forall|j: int| 0 <= j < emoji_table()[4].len() ==> named_key_consistent(#[trigger] emoji_table()[4][j]),
{
    lemma_named_labels();
    reveal_strlit("❤️");
    assert("❤️"@.len() == 2 && "❤️"@[0] == '❤' && "❤️"@[1] == '️');
    reveal_strlit("🧡");
    assert("🧡"@.len() == 1 && "🧡"@[0] == '🧡');
    reveal_strlit("💛");
    assert("💛"@.len() == 1 && "💛"@[0] == '💛');
    reveal_strlit("💚");
    assert("💚"@.len() == 1 && "💚"@[0] == '💚');
    reveal_strlit("💙");
    assert("💙"@.len() == 1 && "💙"@[0] == '💙');
    reveal_strlit("💜");
    assert("💜"@.len() == 1 && "💜"@[0] == '💜');
    reveal_strlit("🖤");
    assert("🖤"@.len() == 1 && "🖤"@[0] == '🖤');
    reveal_strlit("🤍");
    assert("🤍"@.len() == 1 && "🤍"@[0] == '🤍');
    reveal_strlit("🤎");
    assert("🤎"@.len() == 1 && "🤎"@[0] == '🤎');
    reveal_strlit("💔");
    assert("💔"@.len() == 1 && "💔"@[0] == '💔');
    reveal_strlit("❣️");
    assert("❣️"@.len() == 2 && "❣️"@[0] == '❣' && "❣️"@[1] == '️');
    reveal_strlit("💕");
    assert("💕"@.len() == 1 && "💕"@[0] == '💕');
    reveal_strlit("💞");
    assert("💞"@.len() == 1 && "💞"@[0] == '💞');
    reveal_strlit("💓");
    assert("💓"@.len() == 1 && "💓"@[0] == '💓');
    reveal_strlit("💗");
    assert("💗"@.len() == 1 && "💗"@[0] == '💗');
    let g = emoji_glyphs()[4];
    assert(emoji_table()[4] == g.map_values(|c: Seq<char>| spec_glyph_key(c)));
    assert forall|j: int| 0 <= j < g.len() implies named_key_action(#[trigger] g[j]) is None by {
        assert(j == 0 || j == 1 || j == 2 || j == 3 || j == 4 || j == 5 || j == 6 || j == 7 || j == 8 || j == 9 || j == 10 || j == 11 || j == 12 || j == 13 || j == 14);
    }
}

proof fn lemma_named_emoji_row5()
    ensures
        forall|j: int| 0 <= j < emoji_table()[5].len() ==> named_key_consistent(#[trigger] emoji_table()[5][j]),
{
    lemma_named_labels();
    let row = emoji_table()[5];
    assert forall|j: int| 0 <= j < row.len() implies named_key_consistent(#[trigger] row[j]) by {
        assert(j == 0 || j == 1 || j == 2 || j == 3);
    }
}

} // verus!

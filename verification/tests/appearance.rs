use cosmic_touch_keyboard::appearance::{
    is_flashing_in, key_action_eq, key_palette, layout_extent, normalize_key_label, row_units, row_units_fit, str_eq,
};
use cosmic_touch_keyboard::layout::{emoji, letters, nav, symbols, KeyAction, Layer, Mod};

#[test]
fn labels_are_spelled_out() {
    assert_eq!(normalize_key_label("⌫"), "Backspace");
    assert_eq!(normalize_key_label("⇧"), "Shift");
    assert_eq!(normalize_key_label("⎋"), "Esc");
    assert_eq!(normalize_key_label("⌨"), "Hide");
    assert_eq!(normalize_key_label("ABC"), "Letters");
    assert_eq!(normalize_key_label("?123"), "Symbols");
    assert_eq!(normalize_key_label("😊"), "Emoji");
    assert_eq!(normalize_key_label("…"), "...");
    assert_eq!(normalize_key_label("q"), "q");
    assert_eq!(normalize_key_label("😀"), "😀");
    assert_eq!(normalize_key_label(""), "");
}

#[test]
fn str_eq_compares_characters() {
    assert!(str_eq("Tab", "Tab"));
    assert!(!str_eq("Tab", "tab"));
    assert!(!str_eq("⌫", "⌫ "));
}

#[test]
fn palette_colours() {
    let code = KeyAction::Code(30);
    let layer = KeyAction::Layer(Layer::Symbols);
    let modifier = KeyAction::Modifier(Mod::Shift);
    assert_eq!(key_palette(&code, false, true), (0xFFD89A4C, 0xFFF1C88F));
    assert_eq!(key_palette(&modifier, true, true), (0xFFD89A4C, 0xFFF1C88F));
    assert_eq!(key_palette(&KeyAction::Hide, false, false), (0xFF8C2020, 0xFFB64545));
    assert_eq!(key_palette(&layer, true, false), (0xFFCC8A2D, 0xFFE9B66C));
    assert_eq!(key_palette(&layer, false, false), (0xFF2B2B2B, 0xFF4A4A4A));
    assert_eq!(key_palette(&modifier, true, false), (0xFFCC8A2D, 0xFFE9B66C));
    assert_eq!(key_palette(&modifier, false, false), (0xFF303030, 0xFF525252));
    assert_eq!(key_palette(&code, true, false), (0xFF242424, 0xFF4A4A4A));
    assert_eq!(key_palette(&KeyAction::ShiftedCode(2), false, false), (0xFF242424, 0xFF4A4A4A));
}

#[test]
fn key_actions_compare_by_value() {
    assert!(key_action_eq(&KeyAction::Code(3), &KeyAction::Code(3)));
    assert!(!key_action_eq(&KeyAction::Code(3), &KeyAction::Code(4)));
    assert!(key_action_eq(&KeyAction::Hide, &KeyAction::Hide));
    assert!(!key_action_eq(&KeyAction::Layer(Layer::Nav), &KeyAction::Layer(Layer::Emoji)));
    assert!(key_action_eq(&KeyAction::Modifier(Mod::Alt), &KeyAction::Modifier(Mod::Alt)));
    assert!(!key_action_eq(&KeyAction::Modifier(Mod::Alt), &KeyAction::Code(8)));
    assert!(key_action_eq(&KeyAction::ShiftedCode(2), &KeyAction::ShiftedCode(2)));
    assert!(!key_action_eq(&KeyAction::ShiftedCode(2), &KeyAction::Code(2)));
}

#[test]
fn flashing_needs_action_and_label() {
    let snapshot = vec![(KeyAction::Code(16), "q".to_string()), (KeyAction::Modifier(Mod::Shift), "⇧".to_string())];
    assert!(is_flashing_in(&snapshot, &KeyAction::Code(16), "q"));
    assert!(is_flashing_in(&snapshot, &KeyAction::Modifier(Mod::Shift), "⇧"));
    // Same action, other label (the second shift key is not lit by the first).
    assert!(!is_flashing_in(&snapshot, &KeyAction::Modifier(Mod::Shift), "Caps"));
    assert!(!is_flashing_in(&snapshot, &KeyAction::Code(17), "q"));
    assert!(!is_flashing_in(&[], &KeyAction::Code(16), "q"));
}

#[test]
fn row_widths_in_quarters() {
    let l = letters();
    assert_eq!(row_units(&l[0]), 12 * 4 + 6);
    assert_eq!(row_units(&l[4]), 5 * 4 + 16 + 5 + 4 * 4);
    assert_eq!(row_units(&Vec::new()), 0);
    assert!(row_units_fit(&l[0]));
    assert!(row_units_fit(&Vec::new()));
}

#[test]
fn layer_extent() {
    // letters: the home row is widest (7 + 11 * 4 + 8 = 59 quarters); the second row has 14 keys
    assert_eq!(layout_extent(&letters()), (59, 14));
    assert_eq!(layout_extent(&symbols()), (53, 11));
    assert_eq!(layout_extent(&nav()), (52, 13));
    assert_eq!(layout_extent(&emoji()), (60, 15));
    // No rows: ten standard keys' worth, ten keys.
    assert_eq!(layout_extent(&Vec::new()), (40, 10));
}

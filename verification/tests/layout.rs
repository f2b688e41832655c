use cosmic_touch_keyboard::layout::{emoji, kc, layout_for, letters, nav, symbols, Key, KeyAction, Layer, Mod};

fn lens(rows: &[Vec<Key>]) -> Vec<usize> {
    rows.iter().map(|r| r.len()).collect()
}

#[test]
fn mask_bits_match_xkb() {
    assert_eq!(Mod::Shift.mask_bit(), 1);
    assert_eq!(Mod::Ctrl.mask_bit(), 4);
    assert_eq!(Mod::Alt.mask_bit(), 8);
    assert_eq!(Mod::Super.mask_bit(), 64);
}

#[test]
fn letters_layer_shape_and_keys() {
    let l = letters();
    assert_eq!(lens(&l), vec![13, 14, 13, 12, 10]);
    assert_eq!(l[1][1].label, "q");
    assert_eq!(l[1][1].shifted.as_deref(), Some("Q"));
    assert_eq!(l[1][1].action, KeyAction::Code(kc::Q));
    assert_eq!(l[1][1].width_quarters, 4);
    assert_eq!(l[0][12].label, "⌫");
    assert_eq!(l[0][12].action, KeyAction::Code(kc::BACKSPACE));
    assert_eq!(l[0][12].width_quarters, 6);
    assert_eq!(l[2][0].label, "Caps");
    assert_eq!(l[2][0].action, KeyAction::Modifier(Mod::Shift));
    assert_eq!(l[2][0].width_quarters, 7);
    assert_eq!(l[3][0].width_quarters, 9);
    assert_eq!(l[4][3].action, KeyAction::Layer(Layer::Symbols));
    assert_eq!(l[4][4].label, "Space");
    assert_eq!(l[4][4].width_quarters, 16);
    assert_eq!(l[4][5].action, KeyAction::Layer(Layer::Emoji));
    assert_eq!(l[1][13].label, "\\");
    assert_eq!(l[2][11].shifted.as_deref(), Some("\""));
}

#[test]
fn symbols_layer_shape_and_keys() {
    let s = symbols();
    assert_eq!(lens(&s), vec![11, 11, 10, 9]);
    assert_eq!(s[1][0].label, "`");
    assert_eq!(s[1][0].action, KeyAction::Code(kc::GRAVE));
    assert_eq!(s[2][1].label, "!");
    assert_eq!(s[2][1].shifted.as_deref(), Some("1"));
    assert_eq!(s[2][1].action, KeyAction::ShiftedCode(kc::N1));
    assert_eq!(s[2][8].label, "*");
    assert_eq!(s[2][8].action, KeyAction::ShiftedCode(kc::N8));
    assert_eq!(s[0][0].action, KeyAction::Code(kc::N1));
    assert_eq!(s[3][0].action, KeyAction::Layer(Layer::Letters));
    assert_eq!(s[3][0].label, "ABC");
}

#[test]
fn nav_layer_shape_and_keys() {
    let n = nav();
    assert_eq!(lens(&n), vec![13, 7, 6, 6]);
    assert_eq!(n[0][0].action, KeyAction::Code(kc::ESC));
    assert_eq!(n[0][12].label, "F12");
    assert_eq!(n[0][12].action, KeyAction::Code(kc::F12));
    assert_eq!(n[1][6].action, KeyAction::Code(kc::DELETE));
    assert_eq!(n[3][5].action, KeyAction::Layer(Layer::Symbols));
}

#[test]
fn emoji_layer_types_glyphs() {
    let e = emoji();
    assert_eq!(lens(&e), vec![15, 15, 15, 15, 15, 4]);
    assert_eq!(e[0][0].label, "😀");
    assert_eq!(e[3][3].label, "✌️");
    assert_eq!(e[4][14].label, "💗");
    for row in &e[..5] {
        for key in row {
            assert_eq!(key.action, KeyAction::Code(0));
            assert!(key.shifted.is_none());
            assert_eq!(key.width_quarters, 4);
        }
    }
    assert_eq!(e[5][0].action, KeyAction::Layer(Layer::Letters));
    assert_eq!(e[5][1].width_quarters, 24);
    assert_eq!(e[5][3].action, KeyAction::Code(kc::ENTER));
}

#[test]
fn layout_for_selects_layer() {
    assert_eq!(lens(&layout_for(Layer::Letters)), lens(&letters()));
    assert_eq!(lens(&layout_for(Layer::Symbols)), lens(&symbols()));
    assert_eq!(lens(&layout_for(Layer::Nav)), lens(&nav()));
    assert_eq!(lens(&layout_for(Layer::Emoji)), lens(&emoji()));
}

#[test]
fn only_emoji_keys_type_text_and_layer_keys_lead_elsewhere() {
    for layer in [Layer::Letters, Layer::Symbols, Layer::Nav, Layer::Emoji] {
        let rows = layout_for(layer);
        let mut back_to_letters = false;
        for row in &rows {
            for key in row {
                assert!(key.width_quarters >= 4);
                match key.action {
                    KeyAction::Code(c) => {
                        assert!(c < 256);
                        if layer != Layer::Emoji {
                            assert_ne!(c, 0);
                        }
                    }
                    KeyAction::ShiftedCode(c) => {
                        assert!(c > 0 && c < 256);
                        assert_eq!(layer, Layer::Symbols);
                    }
                    KeyAction::Layer(t) => {
                        assert_ne!(t, layer);
                        back_to_letters |= t == Layer::Letters;
                    }
                    KeyAction::Hide => panic!("no layout holds a hide key"),
                    KeyAction::Modifier(_) => {}
                }
            }
        }
        assert!(layer == Layer::Letters || back_to_letters);
    }
}

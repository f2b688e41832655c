use cosmic_touch_keyboard::keyboard::{
    configured_extent, inject_text_followup, topmost_hit, Effect, HitTarget, Interactivity, KeyboardLogic,
    SurfaceConfig, COLLAPSED_H, FULL_H, FULL_W, TOUCH_LAUNCHER_H,
};
use cosmic_touch_keyboard::layout::{kc, letters, KeyAction, Layer, Mod};
use cosmic_touch_keyboard::shell_state::ShellState;
use cosmic_touch_keyboard::vk::VkCommand;

const HIDDEN: SurfaceConfig = SurfaceConfig { width: 1, height: 1, exclusive_zone: 0, interactivity: Interactivity::Never };
const EXPANDED: SurfaceConfig =
    SurfaceConfig { width: FULL_W, height: FULL_H, exclusive_zone: 340, interactivity: Interactivity::OnDemand };
const LAUNCHER: SurfaceConfig =
    SurfaceConfig { width: FULL_W, height: TOUCH_LAUNCHER_H, exclusive_zone: 0, interactivity: Interactivity::Never };

fn sends(effects: &[Effect]) -> Vec<VkCommand> {
    effects
        .iter()
        .map(|e| match e {
            Effect::Send(c) => *c,
            other => panic!("unexpected effect {other:?}"),
        })
        .collect()
}

fn expanded_keyboard() -> KeyboardLogic {
    let (mut k, _) = KeyboardLogic::new(false, true);
    assert_eq!(k.on_im_activate(), EXPANDED);
    k
}

#[test]
fn starts_hidden_with_input_method() {
    let (k, c) = KeyboardLogic::new(true, true);
    assert_eq!(c, HIDDEN);
    assert!(k.im_available);
    assert!(k.needs_redraw);
    assert_eq!(k.layer_sel, Layer::Letters);
    assert_eq!((k.width, k.height), (FULL_W, FULL_H));
    assert!(!k.shows_launcher());
}

#[test]
fn without_input_method_the_panel_is_always_up() {
    let (k, c) = KeyboardLogic::new(true, false);
    assert_eq!(c, EXPANDED);
    assert!(!k.im_available);
    assert_eq!(k.state_machine.state(), ShellState::Expanded);
    assert!(k.state_machine.im_active && !k.state_machine.user_dismissed);
    assert!(k.rows_for_draw().is_some());
}

#[test]
fn touch_first_focus_shows_launcher_then_touch_expands() {
    let (mut k, _) = KeyboardLogic::new(true, true);
    assert_eq!(k.on_im_activate(), LAUNCHER);
    assert!(k.shows_launcher());
    assert!(k.rows_for_draw().is_none());
    let effects = k.on_point_down(Some(HitTarget::Expand), 0);
    assert!(matches!(effects.as_slice(), [Effect::Configure(c)] if *c == EXPANDED));
    assert_eq!(k.rows_for_draw().map(|r| r.len()), Some(5));
    assert_eq!(k.on_im_deactivate(), HIDDEN);
}

#[test]
fn dismiss_hides_until_focus_returns() {
    let mut k = expanded_keyboard();
    let effects = k.on_point_down(Some(HitTarget::Dismiss), 10);
    assert!(matches!(effects.as_slice(), [Effect::Configure(c)] if *c == HIDDEN));
    assert_eq!(k.on_im_activate(), HIDDEN);
    k.on_im_deactivate();
    assert_eq!(k.on_im_activate(), EXPANDED);
}

#[test]
fn a_miss_changes_nothing() {
    let mut k = expanded_keyboard();
    k.needs_redraw = false;
    assert!(k.on_point_down(None, 5).is_empty());
    assert!(!k.needs_redraw);
    assert!(k.flashes.is_empty());
}

#[test]
fn plain_key_sends_mask_and_tap() {
    let mut k = expanded_keyboard();
    let e = k.on_key(KeyAction::Code(kc::Q), "q".to_string(), 1000);
    assert_eq!(sends(&e), vec![VkCommand::Modifiers(0), VkCommand::Tap(kc::Q)]);
    assert_eq!(k.flashes.len(), 1);
    assert_eq!(k.flashes[0].until_ms, 1140);
    assert_eq!(k.flashes[0].label, "q");
}

#[test]
fn shift_applies_to_one_key() {
    let mut k = expanded_keyboard();
    let e = k.on_key(KeyAction::Modifier(Mod::Shift), "⇧".to_string(), 0);
    assert_eq!(sends(&e), vec![VkCommand::Modifiers(1)]);
    assert!(k.mod_active(Mod::Shift));
    let e = k.on_key(KeyAction::Code(kc::A), "a".to_string(), 1);
    assert_eq!(sends(&e), vec![VkCommand::Modifiers(1), VkCommand::Tap(kc::A), VkCommand::Modifiers(0)]);
    assert!(!k.mod_active(Mod::Shift));
    let e = k.on_key(KeyAction::Code(kc::B), "b".to_string(), 2);
    assert_eq!(sends(&e), vec![VkCommand::Modifiers(0), VkCommand::Tap(kc::B)]);
}

#[test]
fn double_tap_locks_and_third_releases() {
    let mut k = expanded_keyboard();
    assert_eq!(k.toggle_mod(Mod::Ctrl), VkCommand::Modifiers(4));
    assert!(k.armed.contains(Mod::Ctrl) && !k.locked.contains(Mod::Ctrl));
    assert_eq!(k.toggle_mod(Mod::Ctrl), VkCommand::Modifiers(4));
    assert!(!k.armed.contains(Mod::Ctrl) && k.locked.contains(Mod::Ctrl));
    // A locked modifier survives key taps.
    let e = k.on_key(KeyAction::Code(kc::C), "c".to_string(), 0);
    assert_eq!(sends(&e), vec![VkCommand::Modifiers(4), VkCommand::Tap(kc::C)]);
    assert!(k.locked.contains(Mod::Ctrl));
    assert_eq!(k.toggle_mod(Mod::Ctrl), VkCommand::Modifiers(0));
    assert!(!k.mod_active(Mod::Ctrl));
}

#[test]
fn masks_combine_and_clearing_keeps_locked() {
    let mut k = expanded_keyboard();
    k.toggle_mod(Mod::Super);
    k.toggle_mod(Mod::Super); // locked
    k.toggle_mod(Mod::Alt); // armed
    k.toggle_mod(Mod::Shift); // armed
    assert_eq!(k.current_mod_mask(), 64 | 8 | 1);
    assert_eq!(k.push_mod_state(), VkCommand::Modifiers(73));
    assert_eq!(k.send_mods_and_key(kc::TAB), vec![VkCommand::Modifiers(73), VkCommand::Tap(kc::TAB)]);
    let e = k.clear_armed_mods();
    assert_eq!(sends(&e), vec![VkCommand::Modifiers(64)]);
    assert!(k.armed.is_empty());
    assert!(k.clear_armed_mods().is_empty());
}

#[test]
fn emoji_key_types_its_label() {
    let mut k = expanded_keyboard();
    k.toggle_mod(Mod::Ctrl);
    let e = k.on_key(KeyAction::Code(0), "😀".to_string(), 0);
    assert_eq!(e.len(), 2);
    assert!(matches!(&e[0], Effect::TypeText(t) if t == "😀"));
    assert!(matches!(&e[1], Effect::Send(VkCommand::Modifiers(0))));
}

#[test]
fn layer_key_switches_layer_only() {
    let mut k = expanded_keyboard();
    let e = k.on_point_down(Some(HitTarget::Key(KeyAction::Layer(Layer::Symbols), "?123".to_string())), 0);
    assert!(e.is_empty());
    assert_eq!(k.layer_sel, Layer::Symbols);
    assert_eq!(k.rows_for_draw().map(|r| r.len()), Some(4));
}

#[test]
fn hide_key_dismisses() {
    let mut k = expanded_keyboard();
    let e = k.on_key(KeyAction::Hide, "⌨".to_string(), 0);
    assert!(matches!(e.as_slice(), [Effect::Configure(c)] if *c == HIDDEN));
    assert_eq!(k.state_machine.state, ShellState::Hidden);
}

#[test]
fn flashes_expire() {
    let mut k = expanded_keyboard();
    k.push_flash(&KeyAction::Code(kc::Q), "q", 0);
    k.push_flash(&KeyAction::Code(kc::W), "w", 100);
    k.prune_flashes(139);
    assert_eq!(k.flashes.len(), 2);
    k.prune_flashes(140);
    assert_eq!(k.flashes.len(), 1);
    assert_eq!(k.flashes[0].label, "w");
    let snap = k.flash_snapshot();
    assert_eq!(snap, vec![(KeyAction::Code(kc::W), "w".to_string())]);
    k.prune_flashes(1000);
    assert!(k.flashes.is_empty());
}

#[test]
fn key_faces() {
    let mut k = expanded_keyboard();
    let rows = letters();
    let snap = Vec::new();
    let q = k.key_face(&rows[1][1], &snap);
    assert_eq!((q.label.as_str(), q.fill, q.border), ("q", 0xFF242424, 0xFF4A4A4A));
    let bs = k.key_face(&rows[0][12], &snap);
    assert_eq!(bs.label, "Backspace");
    k.toggle_mod(Mod::Shift);
    let q = k.key_face(&rows[1][1], &snap);
    assert_eq!(q.label, "Q");
    let tab = k.key_face(&rows[1][0], &snap);
    assert_eq!(tab.label, "Tab");
    let shift = k.key_face(&rows[3][0], &snap);
    assert_eq!((shift.label.as_str(), shift.fill), ("Shift", 0xFFCC8A2D));
    let flashing = vec![(KeyAction::Code(kc::Q), "q".to_string())];
    let q = k.key_face(&rows[1][1], &flashing);
    assert_eq!((q.fill, q.border), (0xFFD89A4C, 0xFFF1C88F));
    k.on_key(KeyAction::Layer(Layer::Symbols), "?123".to_string(), 0);
    let sym = k.key_face(&rows[4][3], &snap);
    assert_eq!((sym.label.as_str(), sym.fill), ("Symbols", 0xFFCC8A2D));
}

#[test]
fn pointer_presses_and_configure() {
    let mut k = expanded_keyboard();
    assert!(k.accepts_pointer_press());
    k.state_machine.state = ShellState::CollapsedReady;
    assert!(!k.accepts_pointer_press());
    assert_eq!(
        k.surface_config(),
        SurfaceConfig { width: FULL_W, height: COLLAPSED_H, exclusive_zone: 56, interactivity: Interactivity::Never }
    );
    k.configure(800, 0);
    assert_eq!((k.width, k.height), (800, FULL_H));
    assert!(!k.first_configure);
    assert_eq!(configured_extent(0, 0), 1);
    assert_eq!(configured_extent(0, 7), 7);
    assert_eq!(configured_extent(9, 7), 9);
}

#[test]
fn topmost_box_wins() {
    assert_eq!(topmost_hit(&vec![true, false, true, false]), Some(2));
    assert_eq!(topmost_hit(&vec![true, false]), Some(0));
    assert_eq!(topmost_hit(&vec![false, false]), None);
    assert_eq!(topmost_hit(&Vec::new()), None);
}

#[test]
fn text_injection_falls_back_to_paste() {
    assert!(inject_text_followup(true, true).is_empty());
    assert!(inject_text_followup(false, false).is_empty());
    assert_eq!(
        inject_text_followup(false, true),
        vec![VkCommand::Modifiers(4), VkCommand::Tap(kc::V), VkCommand::Modifiers(0)]
    );
}

#[test]
fn symbols_row_types_shifted_glyphs() {
    let mut k = expanded_keyboard();
    // "!" on the symbols layer: Shift is sent with the base key, then released.
    let e = k.on_key(KeyAction::ShiftedCode(kc::N1), "!".to_string(), 0);
    assert_eq!(sends(&e), vec![VkCommand::Modifiers(1), VkCommand::Tap(kc::N1), VkCommand::Modifiers(0)]);
    assert!(!k.mod_active(Mod::Shift));
    // With Ctrl locked and Alt armed, Shift is added; Alt is released after.
    k.toggle_mod(Mod::Ctrl);
    k.toggle_mod(Mod::Ctrl);
    k.toggle_mod(Mod::Alt);
    let e = k.on_key(KeyAction::ShiftedCode(kc::N2), "@".to_string(), 0);
    assert_eq!(sends(&e), vec![VkCommand::Modifiers(4 | 8 | 1), VkCommand::Tap(kc::N2), VkCommand::Modifiers(4)]);
    assert!(!k.armed.contains(Mod::Alt) && k.locked.contains(Mod::Ctrl));
    // Through a hit on the drawn key.
    let rows = cosmic_touch_keyboard::layout::symbols();
    let key = &rows[2][3];
    let e = k.on_point_down(Some(HitTarget::Key(key.action, key.label.clone())), 0);
    assert_eq!(sends(&e), vec![VkCommand::Modifiers(5), VkCommand::Tap(kc::N3), VkCommand::Modifiers(4)]);
}

use cosmic_touch_keyboard::shell_state::{ShellState, ShellStateMachine};

#[test]
fn new_machine_is_hidden_without_launcher() {
    let m = ShellStateMachine::new();
    assert_eq!(m.state, ShellState::Hidden);
    assert!(!m.should_show_touch_launcher());
}

#[test]
fn activate_expands_outside_touch_first_mode() {
    let mut m = ShellStateMachine::new();
    m.on_im_activate(false);
    assert_eq!(m.state, ShellState::Expanded);
    assert!(!m.should_show_touch_launcher());
}

#[test]
fn activate_in_touch_first_mode_offers_launcher() {
    let mut m = ShellStateMachine::new();
    m.on_im_activate(true);
    assert_eq!(m.state, ShellState::Hidden);
    assert!(m.should_show_touch_launcher());
    m.on_touch_expand();
    assert_eq!(m.state, ShellState::Expanded);
    assert!(!m.should_show_touch_launcher());
}

#[test]
fn touch_without_focus_does_nothing() {
    let mut m = ShellStateMachine::new();
    m.on_touch_expand();
    assert_eq!(m.state, ShellState::Hidden);
}

#[test]
fn dismiss_sticks_until_deactivate() {
    let mut m = ShellStateMachine::new();
    m.on_im_activate(false);
    m.on_user_dismiss();
    assert_eq!(m.state, ShellState::Hidden);
    assert!(!m.should_show_touch_launcher());
    // Repeated activations while still focused keep it hidden.
    m.on_im_activate(false);
    assert_eq!(m.state, ShellState::Hidden);
    m.on_touch_expand();
    assert_eq!(m.state, ShellState::Hidden);
    // A real deactivate forgets the dismissal.
    m.on_im_deactivate();
    m.on_im_activate(false);
    assert_eq!(m.state, ShellState::Expanded);
}

#[test]
fn deactivate_hides() {
    let mut m = ShellStateMachine::new();
    m.on_im_activate(false);
    m.on_im_deactivate();
    assert_eq!(m.state, ShellState::Hidden);
    assert_eq!(m.state(), ShellState::Hidden);
    assert!(!m.should_show_touch_launcher());
}

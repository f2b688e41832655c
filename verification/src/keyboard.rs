//! The panel's decisions: what each input-method event and each tap does to
//! the keyboard's state, and what it asks of the compositor and of the
//! virtual-keyboard backend.

use vstd::prelude::*;

use crate::appearance::{
    is_flashing_in, key_palette, normalize_key_label, spec_flashing_in, spec_key_palette,
    spec_normalize_key_label,
};
use crate::layout::{self, kc, layer_table, spec_mask_bit, Key, KeyAction, Layer, Mod};
use crate::mod_set::ModSet;
use crate::shell_state::{ShellState, ShellStateMachine, ShellView};
use crate::vk::VkCommand;

verus! {

/// Width of the panel.
pub const FULL_W: u32 = 1100;

/// Height of the expanded panel.
pub const FULL_H: u32 = 340;

/// Height of the collapsed bar.
pub const COLLAPSED_H: u32 = 56;

/// Height of the "tap here to open" strip.
pub const TOUCH_LAUNCHER_H: u32 = 24;

/// Size of the hidden surface.
pub const HIDDEN_W: u32 = 1;

pub const HIDDEN_H: u32 = 1;

/// How long a tapped key stays highlighted, in milliseconds.
pub const FLASH_MS: u64 = 140;

/// Whether the layer surface takes keyboard focus.
#[derive(Debug, Clone, Copy, PartialEq, Eq, Structural)]
pub enum Interactivity {
    Never,
    OnDemand,
}

/// How the layer surface should be configured.
#[derive(Debug, Clone, Copy, PartialEq, Eq, Structural)]
pub struct SurfaceConfig {
    pub width: u32,
    pub height: u32,
    pub exclusive_zone: i32,
    pub interactivity: Interactivity,
}

/// The surface for a shell state: a 1x1 surface (or the launcher strip in
/// touch-first mode) when hidden, the bar when collapsed, the full panel when
/// expanded; only the expanded panel reserves its height and takes focus on
/// demand.
pub open spec fn spec_surface_config(shell: ShellView, touch_first_only: bool) -> SurfaceConfig {
    match shell.state {
        ShellState::Hidden => SurfaceConfig {
            width: if touch_first_only && shell.launcher_wanted() { FULL_W } else { HIDDEN_W },
            height: if touch_first_only && shell.launcher_wanted() { TOUCH_LAUNCHER_H } else { HIDDEN_H },
            exclusive_zone: 0,
            interactivity: Interactivity::Never,
        },
        ShellState::CollapsedReady => SurfaceConfig {
            width: FULL_W,
            height: COLLAPSED_H,
            exclusive_zone: COLLAPSED_H as i32,
            interactivity: Interactivity::Never,
        },
        ShellState::Expanded => SurfaceConfig {
            width: FULL_W,
            height: FULL_H,
            exclusive_zone: FULL_H as i32,
            interactivity: Interactivity::OnDemand,
        },
    }
}

/// What a touch or click landed on.
#[derive(Debug, Clone)]
pub enum HitTarget {
    Expand,
    Dismiss,
    Key(KeyAction, String),
}

/// A key highlighted after a tap, until `until_ms`.
#[derive(Debug)]
pub struct FlashKey {
    pub action: KeyAction,
    pub label: String,
    pub until_ms: u64,
}

pub struct FlashView {
    pub action: KeyAction,
    pub label: Seq<char>,
    pub until_ms: u64,
}

impl DeepView for FlashKey {
    type V = FlashView;

    open spec fn deep_view(&self) -> FlashView {
        FlashView { action: self.action, label: self.label@, until_ms: self.until_ms }
    }
}

/// Something the caller must carry out, in order.
#[derive(Debug)]
pub enum Effect {
    /// Send a command to the virtual-keyboard backend.
    Send(VkCommand),
    /// Type this text into the focused application.
    TypeText(String),
    /// Reconfigure the layer surface and commit it.
    Configure(SurfaceConfig),
}

pub enum EffectView {
    Send(VkCommand),
    TypeText(Seq<char>),
    Configure(SurfaceConfig),
}

impl DeepView for Effect {
    type V = EffectView;

    open spec fn deep_view(&self) -> EffectView {
        match self {
            Effect::Send(c) => EffectView::Send(*c),
            Effect::TypeText(s) => EffectView::TypeText(s@),
            Effect::Configure(c) => EffectView::Configure(*c),
        }
    }
}

/// The XKB mask of a set of modifiers: the bits of the modifiers in it.
pub open spec fn spec_mod_mask(active: Set<Mod>) -> u32 {
    (if active.contains(Mod::Shift) { 1u32 } else { 0u32 }) | (if active.contains(Mod::Ctrl) {
        4u32
    } else {
        0u32
    }) | (if active.contains(Mod::Alt) { 8u32 } else { 0u32 }) | (if active.contains(Mod::Super) {
        64u32
    } else {
        0u32
    })
}

/// The state of a keyboard.
pub struct KeyboardView {
    pub shell: ShellView,
    pub touch_first_only: bool,
    pub im_available: bool,
    pub layer: Layer,
    /// One-shot modifiers: they apply to the next key, then release.
    pub armed: Set<Mod>,
    /// Locked modifiers: they stay until toggled off.
    pub locked: Set<Mod>,
    pub needs_redraw: bool,
    pub flashes: Seq<FlashView>,
    pub width: u32,
    pub height: u32,
    pub first_configure: bool,
}

impl KeyboardView {
    /// The modifiers in effect.
    pub open spec fn active_mods(self) -> Set<Mod> {
        self.armed.union(self.locked)
    }

    /// The surface the current shell state asks for.
    pub open spec fn surface(self) -> SurfaceConfig {
        spec_surface_config(self.shell, self.touch_first_only)
    }

    /// A modifier key cycles off -> armed -> locked -> off.
    pub open spec fn after_toggle(self, m: Mod) -> KeyboardView {
        if self.locked.contains(m) {
            KeyboardView { locked: self.locked.remove(m), needs_redraw: true, ..self }
        } else if self.armed.contains(m) {
            KeyboardView {
                armed: self.armed.remove(m),
                locked: self.locked.insert(m),
                needs_redraw: true,
                ..self
            }
        } else {
            KeyboardView { armed: self.armed.insert(m), needs_redraw: true, ..self }
        }
    }

    /// One-shot modifiers are released.
    pub open spec fn after_clear_armed(self) -> KeyboardView {
        if self.armed == Set::<Mod>::empty() {
            self
        } else {
            KeyboardView { armed: Set::empty(), needs_redraw: true, ..self }
        }
    }

    /// What releasing the one-shot modifiers sends.
    pub open spec fn clear_armed_effects(self) -> Seq<EffectView> {
        if self.armed == Set::<Mod>::empty() {
            seq![]
        } else {
            seq![EffectView::Send(VkCommand::Modifiers(spec_mod_mask(self.locked)))]
        }
    }

    /// The tapped key is highlighted until `now_ms + FLASH_MS`.
    pub open spec fn after_flash(self, action: KeyAction, label: Seq<char>, now_ms: u64) -> KeyboardView {
        KeyboardView {
            flashes: self.flashes.push(FlashView { action, label, until_ms: (now_ms + FLASH_MS) as u64 }),
            needs_redraw: true,
            ..self
        }
    }

    /// The state after a tap on a key.
    pub open spec fn after_key(self, action: KeyAction, label: Seq<char>, now_ms: u64) -> KeyboardView {
        let f = self.after_flash(action, label, now_ms);
        match action {
            KeyAction::Modifier(m) => f.after_toggle(m),
            KeyAction::Layer(l) => KeyboardView { layer: l, ..f },
            KeyAction::Hide => KeyboardView { shell: f.shell.after_user_dismiss(), ..f },
            KeyAction::Code(_) => f.after_clear_armed(),
            KeyAction::ShiftedCode(_) => f.after_clear_armed(),
        }
    }

    /// What a tap on a key asks for, in order.
    pub open spec fn key_effects(self, action: KeyAction, label: Seq<char>) -> Seq<EffectView> {
        match action {
            KeyAction::Modifier(m) => seq![
                EffectView::Send(VkCommand::Modifiers(spec_mod_mask(self.after_toggle(m).active_mods()))),
            ],
            KeyAction::Layer(_) => seq![],
            KeyAction::Hide => seq![
                EffectView::Configure(spec_surface_config(self.shell.after_user_dismiss(), self.touch_first_only)),
            ],
            KeyAction::Code(code) => if code == 0 {
                seq![EffectView::TypeText(label)] + self.clear_armed_effects()
            } else {
                seq![
                    EffectView::Send(VkCommand::Modifiers(spec_mod_mask(self.active_mods()))),
                    EffectView::Send(VkCommand::Tap(code)),
                ] + self.clear_armed_effects()
            },
            KeyAction::ShiftedCode(code) => seq![
                EffectView::Send(VkCommand::Modifiers(spec_mod_mask(self.active_mods().insert(Mod::Shift)))),
                EffectView::Send(VkCommand::Tap(code)),
                EffectView::Send(VkCommand::Modifiers(spec_mod_mask(self.locked))),
            ],
        }
    }

    /// Flashes still lit at `now_ms`, in order.
    pub open spec fn live_flashes(flashes: Seq<FlashView>, now_ms: u64) -> Seq<FlashView>
        decreases flashes.len(),
    {
        if flashes.len() == 0 {
            seq![]
        } else if flashes.last().until_ms > now_ms {
            Self::live_flashes(flashes.drop_last(), now_ms).push(flashes.last())
        } else {
            Self::live_flashes(flashes.drop_last(), now_ms)
        }
    }
}

/// The keyboard: shell state, active layer, modifiers and tap feedback.
pub struct KeyboardLogic {
    pub state_machine: ShellStateMachine,
    pub touch_first_only: bool,
    pub im_available: bool,
    pub layer_sel: Layer,
    pub armed: ModSet,
    pub locked: ModSet,
    pub needs_redraw: bool,
    pub flashes: Vec<FlashKey>,
    pub width: u32,
    pub height: u32,
    pub first_configure: bool,
}

impl View for KeyboardLogic {
    type V = KeyboardView;

    open spec fn view(&self) -> KeyboardView {
        KeyboardView {
            shell: self.state_machine@,
            touch_first_only: self.touch_first_only,
            im_available: self.im_available,
            layer: self.layer_sel,
            armed: self.armed@,
            locked: self.locked@,
            needs_redraw: self.needs_redraw,
            flashes: self.flashes.deep_view(),
            width: self.width,
            height: self.height,
            first_configure: self.first_configure,
        }
    }
}

impl KeyboardLogic {
    /// A keyboard at start-up. Without an input method there are no focus
    /// events, so the keyboard behaves as if a text field were always focused.
    /// Returns the surface to configure first.
    pub fn new(touch_first_only: bool, has_input_method: bool) -> (r: (Self, SurfaceConfig))
        ensures
            r.0@ == (KeyboardView {
                shell: if has_input_method {
                    ShellView::initial()
                } else {
                    ShellView::initial().after_im_activate(false)
                },
                touch_first_only,
                im_available: has_input_method,
                layer: Layer::Letters,
                armed: Set::empty(),
                locked: Set::empty(),
                needs_redraw: true,
                flashes: seq![],
                width: FULL_W,
                height: FULL_H,
                first_configure: true,
            }),
            r.1 == r.0@.surface(),
    {
        let mut k = KeyboardLogic {
            state_machine: ShellStateMachine::new(),
            touch_first_only,
            im_available: false,
            layer_sel: Layer::Letters,
            armed: ModSet::new(),
            locked: ModSet::new(),
            needs_redraw: false,
            flashes: Vec::new(),
            width: FULL_W,
            height: FULL_H,
            first_configure: true,
        };
        if !has_input_method {
            k.state_machine.on_im_activate(false);
            k.im_available = false;
        } else {
            k.im_available = true;
        }
        assert(k.flashes.deep_view() =~= seq![]);
        let c = k.apply_shell();
        (k, c)
    }

    /// The surface the current shell state asks for.
    pub fn surface_config(&self) -> (r: SurfaceConfig)
        ensures
            r == self@.surface(),
    {
        match self.state_machine.state() {
            ShellState::Hidden => {
                if self.touch_first_only && self.state_machine.should_show_touch_launcher() {
                    SurfaceConfig {
                        width: FULL_W,
                        height: TOUCH_LAUNCHER_H,
                        exclusive_zone: 0,
                        interactivity: Interactivity::Never,
                    }
                } else {
                    SurfaceConfig {
                        width: HIDDEN_W,
                        height: HIDDEN_H,
                        exclusive_zone: 0,
                        interactivity: Interactivity::Never,
                    }
                }
            },
            ShellState::CollapsedReady => SurfaceConfig {
                width: FULL_W,
                height: COLLAPSED_H,
                exclusive_zone: COLLAPSED_H as i32,
                interactivity: Interactivity::Never,
            },
            ShellState::Expanded => SurfaceConfig {
                width: FULL_W,
                height: FULL_H,
                exclusive_zone: FULL_H as i32,
                interactivity: Interactivity::OnDemand,
            },
        }
    }

    /// Re-derives the surface from the shell state; the panel must be redrawn.
    pub fn apply_shell(&mut self) -> (r: SurfaceConfig)
        ensures
            final(self)@ == (KeyboardView { needs_redraw: true, ..old(self)@ }),
            r == old(self)@.surface(),
    {
        let c = self.surface_config();
        self.needs_redraw = true;
        c
    }

    /// A text field gained focus.
    pub fn on_im_activate(&mut self) -> (r: SurfaceConfig)
        ensures
            final(self)@ == (KeyboardView {
                shell: old(self)@.shell.after_im_activate(old(self)@.touch_first_only),
                needs_redraw: true,
                ..old(self)@
            }),
            r == final(self)@.surface(),
    {
        self.state_machine.on_im_activate(self.touch_first_only);
        self.apply_shell()
    }

    /// Focus left the text field.
    pub fn on_im_deactivate(&mut self) -> (r: SurfaceConfig)
        ensures
            final(self)@ == (KeyboardView {
                shell: old(self)@.shell.after_im_deactivate(),
                needs_redraw: true,
                ..old(self)@
            }),
            r == final(self)@.surface(),
    {
        self.state_machine.on_im_deactivate();
        self.apply_shell()
    }

    /// Whether the modifier is in effect (armed or locked).
    pub fn mod_active(&self, m: Mod) -> (r: bool)
        ensures
            r == self@.active_mods().contains(m),
    {
        self.armed.contains(m) || self.locked.contains(m)
    }

    /// The XKB mask of the modifiers in effect.
    pub fn current_mod_mask(&self) -> (r: u32)
        ensures
            r == spec_mod_mask(self@.active_mods()),
    {
        let order = [Mod::Shift, Mod::Ctrl, Mod::Alt, Mod::Super];
        let mut mask = 0u32;
        let mut i: usize = 0;
        while i < 4
            invariant
                i <= 4,
                order@ == seq![Mod::Shift, Mod::Ctrl, Mod::Alt, Mod::Super],
                mask == mask_prefix(self@.active_mods(), i as nat),
            decreases 4 - i,
        {
            let m = order[i];
            let ghost before = mask;
            if self.mod_active(m) {
                mask = mask | m.mask_bit();
            }
            proof {
                assert(before | 0u32 == before) by (bit_vector);
                assert(m == seq![Mod::Shift, Mod::Ctrl, Mod::Alt, Mod::Super][i as int]);
            }
            i = i + 1;
        }
        proof {
            let a = self@.active_mods();
            let s = if a.contains(Mod::Shift) { 1u32 } else { 0u32 };
            let c = if a.contains(Mod::Ctrl) { 4u32 } else { 0u32 };
            let l = if a.contains(Mod::Alt) { 8u32 } else { 0u32 };
            let u = if a.contains(Mod::Super) { 64u32 } else { 0u32 };
            reveal_with_fuel(mask_prefix, 5);
            assert(mask == (((0u32 | s) | c) | l) | u);
            assert((((0u32 | s) | c) | l) | u == ((s | c) | l) | u) by (bit_vector);
        }
        mask
    }

    /// The command that tells the backend which modifiers are held.
    pub fn push_mod_state(&self) -> (r: VkCommand)
        ensures
            r == VkCommand::Modifiers(spec_mod_mask(self@.active_mods())),
    {
        VkCommand::Modifiers(self.current_mod_mask())
    }

    /// The commands that type a key with the modifiers in effect.
    pub fn send_mods_and_key(&self, code: u32) -> (r: Vec<VkCommand>)
        ensures
            r@ == seq![VkCommand::Modifiers(spec_mod_mask(self@.active_mods())), VkCommand::Tap(code)],
    {
        let mut out: Vec<VkCommand> = Vec::new();
        out.push(VkCommand::Modifiers(self.current_mod_mask()));
        out.push(VkCommand::Tap(code));
        assert(out@ =~= seq![VkCommand::Modifiers(spec_mod_mask(self@.active_mods())), VkCommand::Tap(code)]);
        out
    }

    /// Cycles a modifier off -> armed -> locked -> off, and returns the command
    /// announcing the new modifier state.
    pub fn toggle_mod(&mut self, m: Mod) -> (r: VkCommand)
        ensures
            final(self)@ == old(self)@.after_toggle(m),
            r == VkCommand::Modifiers(spec_mod_mask(final(self)@.active_mods())),
    {
        if self.locked.contains(m) {
            self.locked.remove(m);
        } else if self.armed.contains(m) {
            self.armed.remove(m);
            self.locked.insert(m);
        } else {
            self.armed.insert(m);
        }
        let c = self.push_mod_state();
        self.needs_redraw = true;
        c
    }

    /// Releases the one-shot modifiers, announcing it if any were armed.
    pub fn clear_armed_mods(&mut self) -> (r: Vec<Effect>)
        ensures
            final(self)@ == old(self)@.after_clear_armed(),
            r.deep_view() == old(self)@.clear_armed_effects(),
    {
        let mut out: Vec<Effect> = Vec::new();
        if !self.armed.is_empty() {
            self.armed.clear();
            let c = self.push_mod_state();
            proof {
                assert(self@.active_mods() =~= old(self)@.locked);
            }
            out.push(Effect::Send(c));
            self.needs_redraw = true;
        }
        assert(out.deep_view() =~= old(self)@.clear_armed_effects());
        out
    }

    /// Highlights the tapped key for a short while.
    pub fn push_flash(&mut self, action: &KeyAction, label: &str, now_ms: u64)
        requires
            now_ms + FLASH_MS <= u64::MAX,
        ensures
            final(self)@ == old(self)@.after_flash(*action, label@, now_ms),
    {
        self.flashes.push(FlashKey { action: *action, label: label.to_owned(), until_ms: now_ms + FLASH_MS });
        self.needs_redraw = true;
        assert(self.flashes.deep_view() =~= old(self).flashes.deep_view().push(
            FlashView { action: *action, label: label@, until_ms: (now_ms + FLASH_MS) as u64 },
        ));
    }

    /// A tap on a key: highlight it, then act on it.
    pub fn on_key(&mut self, action: KeyAction, label: String, now_ms: u64) -> (r: Vec<Effect>)
        requires
            now_ms + FLASH_MS <= u64::MAX,
        ensures
            final(self)@ == old(self)@.after_key(action, label@, now_ms),
            r.deep_view() == old(self)@.key_effects(action, label@),
    {
        self.push_flash(&action, label.as_str(), now_ms);
        let ghost flashed = self@;
        let mut out: Vec<Effect> = Vec::new();
        match action {
            KeyAction::Modifier(m) => {
                let c = self.toggle_mod(m);
                out.push(Effect::Send(c));
                proof {
                    assert(flashed.after_toggle(m).active_mods() =~= old(self)@.after_toggle(m).active_mods());
                }
            },
            KeyAction::Layer(l) => {
                self.layer_sel = l;
                self.needs_redraw = true;
            },
            KeyAction::Hide => {
                self.state_machine.on_user_dismiss();
                let c = self.apply_shell();
                out.push(Effect::Configure(c));
            },
            KeyAction::Code(code) => {
                if code == 0 {
                    out.push(Effect::TypeText(label));
                } else {
                    let cmds = self.send_mods_and_key(code);
                    out.push(Effect::Send(cmds[0]));
                    out.push(Effect::Send(cmds[1]));
                }
                let mut cleared = self.clear_armed_mods();
                out.append(&mut cleared);
            },
            KeyAction::ShiftedCode(code) => {
                let mask = self.current_mod_mask() | Mod::Shift.mask_bit();
                proof {
                    lemma_mask_with_shift(self@.active_mods());
                    assert(flashed.active_mods() =~= old(self)@.active_mods());
                }
                out.push(Effect::Send(VkCommand::Modifiers(mask)));
                out.push(Effect::Send(VkCommand::Tap(code)));
                if !self.armed.is_empty() {
                    self.armed.clear();
                    self.needs_redraw = true;
                }
                proof {
                    assert(self@.active_mods() =~= old(self)@.locked);
                }
                let restore = self.push_mod_state();
                out.push(Effect::Send(restore));
            },
        }
        assert(out.deep_view() =~= old(self)@.key_effects(action, label@));
        out
    }

    /// A touch or click that landed on `hit` (nothing when `None`).
    pub fn on_point_down(&mut self, hit: Option<HitTarget>, now_ms: u64) -> (r: Vec<Effect>)
        requires
            now_ms + FLASH_MS <= u64::MAX,
        ensures
            match hit {
                None => final(self)@ == old(self)@ && r.deep_view() == Seq::<EffectView>::empty(),
                Some(HitTarget::Expand) => {
                    &&& final(self)@ == (KeyboardView {
                        shell: old(self)@.shell.after_touch_expand(),
                        needs_redraw: true,
                        ..old(self)@
                    })
                    &&& r.deep_view() == seq![EffectView::Configure(final(self)@.surface())]
                },
                Some(HitTarget::Dismiss) => {
                    &&& final(self)@ == (KeyboardView {
                        shell: old(self)@.shell.after_user_dismiss(),
                        needs_redraw: true,
                        ..old(self)@
                    })
                    &&& r.deep_view() == seq![EffectView::Configure(final(self)@.surface())]
                },
                Some(HitTarget::Key(action, label)) => {
                    &&& final(self)@ == old(self)@.after_key(action, label@, now_ms)
                    &&& r.deep_view() == old(self)@.key_effects(action, label@)
                },
            },
    {
        let mut out: Vec<Effect> = Vec::new();
        match hit {
            None => {
                assert(out.deep_view() =~= Seq::<EffectView>::empty());
                out
            },
            Some(HitTarget::Expand) => {
                self.state_machine.on_touch_expand();
                let c = self.apply_shell();
                out.push(Effect::Configure(c));
                assert(out.deep_view() =~= seq![EffectView::Configure(c)]);
                out
            },
            Some(HitTarget::Dismiss) => {
                self.state_machine.on_user_dismiss();
                let c = self.apply_shell();
                out.push(Effect::Configure(c));
                assert(out.deep_view() =~= seq![EffectView::Configure(c)]);
                out
            },
            Some(HitTarget::Key(action, label)) => self.on_key(action, label, now_ms),
        }
    }
}

/// The mask of the first `n` modifiers in the order Shift, Ctrl, Alt, Super.
pub open spec fn mask_prefix(active: Set<Mod>, n: nat) -> u32
    decreases n,
{
    if n == 0 {
        0
    } else {
        let m = seq![Mod::Shift, Mod::Ctrl, Mod::Alt, Mod::Super][n - 1];
        mask_prefix(active, (n - 1) as nat) | if active.contains(m) { spec_mask_bit(m) } else { 0u32 }
    }
}

/// The caption and colours of a key as drawn.
pub struct KeyFace {
    pub label: String,
    pub fill: u32,
    pub border: u32,
}

impl KeyboardLogic {
    /// Drops the highlights that have expired at `now_ms`.
    pub fn prune_flashes(&mut self, now_ms: u64)
        ensures
            final(self)@ == (KeyboardView {
                flashes: KeyboardView::live_flashes(old(self)@.flashes, now_ms),
                ..old(self)@
            }),
    {
        let mut old_flashes: Vec<FlashKey> = Vec::new();
        std::mem::swap(&mut old_flashes, &mut self.flashes);
        let ghost src = old_flashes.deep_view();
        let mut kept: Vec<FlashKey> = Vec::new();
        let mut i: usize = 0;
        while i < old_flashes.len()
            invariant
                src == old_flashes.deep_view(),
                i <= src.len(),
                kept.deep_view() == KeyboardView::live_flashes(src.take(i as int), now_ms),
            decreases src.len() - i,
        {
            proof {
                assert(src.take(i + 1).drop_last() =~= src.take(i as int));
                assert(src.take(i + 1).last() == src[i as int]);
            }
            let f = &old_flashes[i];
            if f.until_ms > now_ms {
                let copy = FlashKey { action: f.action, label: f.label.clone(), until_ms: f.until_ms };
                let ghost before = kept.deep_view();
                kept.push(copy);
                assert(kept.deep_view() =~= before.push(src[i as int]));
            }
            i = i + 1;
        }
        assert(src.take(i as int) =~= src);
        self.flashes = kept;
    }

    /// The lit keys, as (action, label) pairs in order.
    pub fn flash_snapshot(&self) -> (r: Vec<(KeyAction, String)>)
        ensures
            r@.len() == self@.flashes.len(),
            forall|i: int|
                0 <= i < r@.len() ==> #[trigger] r@[i].0 == self@.flashes[i].action && r@[i].1@
                    == self@.flashes[i].label,
    {
        let mut out: Vec<(KeyAction, String)> = Vec::new();
        let mut i: usize = 0;
        while i < self.flashes.len()
            invariant
                i <= self.flashes@.len(),
                out@.len() == i,
                forall|j: int|
                    0 <= j < i ==> #[trigger] out@[j].0 == self@.flashes[j].action && out@[j].1@
                        == self@.flashes[j].label,
            decreases self.flashes@.len() - i,
        {
            out.push((self.flashes[i].action, self.flashes[i].label.clone()));
            i = i + 1;
        }
        out
    }

    /// The caption and colours of a key: its shifted text while Shift is in
    /// effect (when it has one), spelled out; highlighted while it flashes;
    /// modifier keys lit while their modifier is in effect, layer keys while
    /// their layer is shown.
    pub fn key_face(&self, key: &Key, snapshot: &[(KeyAction, String)]) -> (r: KeyFace)
        ensures
            r.label@ == spec_normalize_key_label(
                if self@.active_mods().contains(Mod::Shift) && key.shifted is Some {
                    key.shifted->0@
                } else {
                    key.label@
                },
            ),
            (r.fill, r.border) == spec_key_palette(
                key.action,
                match key.action {
                    KeyAction::Modifier(m) => self@.active_mods().contains(m),
                    KeyAction::Layer(l) => l == self@.layer,
                    _ => false,
                },
                spec_flashing_in(snapshot@, key.action, key.label@),
            ),
    {
        let shift_on = self.mod_active(Mod::Shift);
        let display_label = if shift_on {
            match &key.shifted {
                Some(s) => s.clone(),
                None => key.label.clone(),
            }
        } else {
            key.label.clone()
        };
        let display_label = normalize_key_label(display_label.as_str());
        let active = match &key.action {
            KeyAction::Modifier(m) => self.armed.contains(*m) || self.locked.contains(*m),
            KeyAction::Layer(l) => *l == self.layer_sel,
            _ => false,
        };
        let flashing = is_flashing_in(snapshot, &key.action, key.label.as_str());
        let (fill, border) = key_palette(&key.action, active, flashing);
        KeyFace { label: display_label, fill, border }
    }

    /// The rows to draw: the active layer when expanded, nothing otherwise.
    pub fn rows_for_draw(&self) -> (r: Option<Vec<Vec<Key>>>)
        ensures
            match r {
                Some(rows) => self@.shell.state == ShellState::Expanded && rows.deep_view() == layer_table(self@.layer),
                None => self@.shell.state != ShellState::Expanded,
            },
    {
        if self.state_machine.state() == ShellState::Expanded {
            Some(layout::layout_for(self.layer_sel))
        } else {
            None
        }
    }

    /// Whether the "tap here to open" strip is shown.
    pub fn shows_launcher(&self) -> (r: bool)
        ensures
            r == (self@.touch_first_only && self@.shell.launcher_wanted()),
    {
        self.touch_first_only && self.state_machine.should_show_touch_launcher()
    }

    /// Mouse and pointer presses are ignored on the collapsed bar: only a touch
    /// expands it.
    pub fn accepts_pointer_press(&self) -> (r: bool)
        ensures
            r == (self@.shell.state != ShellState::CollapsedReady),
    {
        self.state_machine.state() != ShellState::CollapsedReady
    }

    /// The compositor configured the surface with `new_width` x `new_height`;
    /// a zero means "keep the current size" (at least 1).
    pub fn configure(&mut self, new_width: u32, new_height: u32)
        ensures
            final(self)@ == (KeyboardView {
                width: spec_configured_extent(new_width, old(self)@.width),
                height: spec_configured_extent(new_height, old(self)@.height),
                first_configure: false,
                ..old(self)@
            }),
    {
        self.width = configured_extent(new_width, self.width);
        self.height = configured_extent(new_height, self.height);
        if self.first_configure {
            self.first_configure = false;
        }
    }
}

/// A configured extent: the proposed one, or the current one (at least 1)
/// when the compositor leaves the choice to the client.
pub open spec fn spec_configured_extent(proposed: u32, current: u32) -> u32 {
    if proposed != 0 {
        proposed
    } else if current > 1 {
        current
    } else {
        1
    }
}

pub fn configured_extent(proposed: u32, current: u32) -> (r: u32)
    ensures
        r == spec_configured_extent(proposed, current),
{
    if proposed != 0 {
        proposed
    } else if current > 1 {
        current
    } else {
        1
    }
}

/// The topmost hit among boxes drawn in order: the last one that contains
/// the point.
pub fn topmost_hit(contains: &Vec<bool>) -> (r: Option<usize>)
    ensures
        match r {
            Some(i) => i < contains@.len() && contains@[i as int] && forall|j: int|
                i < j < contains@.len() ==> !#[trigger] contains@[j],
            None => forall|j: int| 0 <= j < contains@.len() ==> !#[trigger] contains@[j],
        },
{
    let mut i = contains.len();
    while i > 0
        invariant
            i <= contains@.len(),
            forall|j: int| i <= j < contains@.len() ==> !#[trigger] contains@[j],
        decreases i,
    {
        i = i - 1;
        if contains[i] {
            return Some(i);
        }
    }
    None
}

/// Pastes the clipboard: Ctrl held, V tapped, modifiers released.
pub open spec fn spec_paste_commands() -> Seq<VkCommand> {
    seq![VkCommand::Modifiers(spec_mask_bit(Mod::Ctrl)), VkCommand::Tap(kc::V), VkCommand::Modifiers(0)]
}

/// What typing text still needs from the backend once the text was handed
/// to `wtype` (`typed`) or, failing that, to the clipboard (`copied`): nothing
/// when `wtype` typed it, a paste when it went to the clipboard, nothing when
/// both failed.
pub fn inject_text_followup(typed: bool, copied: bool) -> (r: Vec<VkCommand>)
    ensures
        r@ == if !typed && copied { spec_paste_commands() } else { Seq::<VkCommand>::empty() },
{
    let mut out: Vec<VkCommand> = Vec::new();
    if typed {
        return out;
    }
    if copied {
        out.push(VkCommand::Modifiers(Mod::Ctrl.mask_bit()));
        out.push(VkCommand::Tap(kc::V));
        out.push(VkCommand::Modifiers(0));
        assert(out@ =~= spec_paste_commands());
    }
    out
}

/// A modifier key cycles off -> armed -> locked -> off: three taps bring the
/// modifiers back to where they were (for a modifier not both armed and
/// locked), and no other modifier changes on the way.
pub proof fn lemma_modifier_cycle(v: KeyboardView, m: Mod)
    requires
        !(v.armed.contains(m) && v.locked.contains(m)),
    ensures
        !v.active_mods().contains(m) ==> {
            &&& v.after_toggle(m).armed.contains(m) && !v.after_toggle(m).locked.contains(m)
            &&& !v.after_toggle(m).after_toggle(m).armed.contains(m)
            &&& v.after_toggle(m).after_toggle(m).locked.contains(m)
        },
        v.after_toggle(m).after_toggle(m).after_toggle(m).armed == v.armed,
        v.after_toggle(m).after_toggle(m).after_toggle(m).locked == v.locked,
        forall|n: Mod|
            n != m ==> (#[trigger] v.after_toggle(m).armed.contains(n) == v.armed.contains(n)
                && v.after_toggle(m).locked.contains(n) == v.locked.contains(n)),
{
    let t1 = v.after_toggle(m);
    let t2 = t1.after_toggle(m);
    let t3 = t2.after_toggle(m);
    assert(t3.armed =~= v.armed);
    assert(t3.locked =~= v.locked);
}

/// No modifier is ever both armed and locked: a tap on any key keeps the two
/// sets apart.
pub proof fn lemma_armed_locked_apart(v: KeyboardView, action: KeyAction, label: Seq<char>, now_ms: u64)
    requires
        v.armed.disjoint(v.locked),
    ensures
        v.after_key(action, label, now_ms).armed.disjoint(v.after_key(action, label, now_ms).locked),
{
}

/// A code key is typed with every modifier in effect and then releases the
/// one-shot ones: Shift-armed `a` sends the Shift mask, then the tap, then
/// (only if something was armed) the mask of the locked modifiers; afterwards
/// nothing is armed and the locked modifiers are untouched. The text
/// sentinel 0 types the label instead of a keycode.
pub proof fn lemma_code_key_one_shot(v: KeyboardView, code: u32, label: Seq<char>, now_ms: u64)
    ensures
        v.after_key(KeyAction::Code(code), label, now_ms).armed == Set::<Mod>::empty(),
        v.after_key(KeyAction::Code(code), label, now_ms).locked == v.locked,
        v.after_key(KeyAction::Code(code), label, now_ms).layer == v.layer,
        v.after_key(KeyAction::Code(code), label, now_ms).shell == v.shell,
        code != 0 ==> {
            let e = v.key_effects(KeyAction::Code(code), label);
            &&& e[0] == EffectView::Send(VkCommand::Modifiers(spec_mod_mask(v.active_mods())))
            &&& e[1] == EffectView::Send(VkCommand::Tap(code))
            &&& e.len() == if v.armed == Set::<Mod>::empty() { 2int } else { 3int }
            &&& v.armed != Set::<Mod>::empty() ==> e[2] == EffectView::Send(
                VkCommand::Modifiers(spec_mod_mask(v.locked)),
            )
        },
        code == 0 ==> {
            let e = v.key_effects(KeyAction::Code(code), label);
            &&& e[0] == EffectView::TypeText(label)
            &&& e.len() == if v.armed == Set::<Mod>::empty() { 1int } else { 2int }
        },
{
}

/// A shifted code key (the symbols layer's "!", "@", ...) is typed with
/// Shift added to the modifiers in effect, so it types its shifted glyph
/// whatever is armed or locked; then the one-shot modifiers are released and
/// the backend is told the modifiers that remain (the locked ones).
pub proof fn lemma_shifted_key(v: KeyboardView, code: u32, label: Seq<char>, now_ms: u64)
    ensures
        ({
            let e = v.key_effects(KeyAction::ShiftedCode(code), label);
            &&& e.len() == 3
            &&& e[0] == EffectView::Send(VkCommand::Modifiers(spec_mod_mask(v.active_mods()) | 1u32))
            &&& e[0] matches EffectView::Send(VkCommand::Modifiers(mask)) && mask & 1u32 != 0
                && forall|m: Mod| #[trigger] v.active_mods().contains(m) ==> mask & spec_mask_bit(m) != 0
            &&& e[1] == EffectView::Send(VkCommand::Tap(code))
            &&& e[2] == EffectView::Send(VkCommand::Modifiers(spec_mod_mask(v.locked)))
        }),
        v.after_key(KeyAction::ShiftedCode(code), label, now_ms).armed == Set::<Mod>::empty(),
        v.after_key(KeyAction::ShiftedCode(code), label, now_ms).locked == v.locked,
        v.after_key(KeyAction::ShiftedCode(code), label, now_ms).layer == v.layer,
{
    let s = v.active_mods().insert(Mod::Shift);
    lemma_mask_with_shift(v.active_mods());
    lemma_mask_encodes_set(s, Mod::Shift);
    assert forall|m: Mod| #[trigger] v.active_mods().contains(m) implies spec_mod_mask(s) & spec_mask_bit(m) != 0 by {
        lemma_mask_encodes_set(s, m);
    }
}

/// A layer key only switches the layer: nothing is sent and the modifiers
/// and the shell state stay as they were.
pub proof fn lemma_layer_key(v: KeyboardView, target: Layer, label: Seq<char>, now_ms: u64)
    ensures
        v.key_effects(KeyAction::Layer(target), label).len() == 0,
        v.after_key(KeyAction::Layer(target), label, now_ms).layer == target,
        v.after_key(KeyAction::Layer(target), label, now_ms).armed == v.armed,
        v.after_key(KeyAction::Layer(target), label, now_ms).locked == v.locked,
        v.after_key(KeyAction::Layer(target), label, now_ms).shell == v.shell,
{
}

/// The modifier mask holds exactly the bits of the modifiers in the set;
/// the bits are distinct, and no modifier gives the empty mask.
pub proof fn lemma_mask_encodes_set(s: Set<Mod>, m: Mod)
    ensures
        (spec_mod_mask(s) & spec_mask_bit(m) != 0) <==> s.contains(m),
        spec_mod_mask(Set::<Mod>::empty()) == 0,
{
    let a = if s.contains(Mod::Shift) { 1u32 } else { 0u32 };
    let b = if s.contains(Mod::Ctrl) { 4u32 } else { 0u32 };
    let c = if s.contains(Mod::Alt) { 8u32 } else { 0u32 };
    let d = if s.contains(Mod::Super) { 64u32 } else { 0u32 };
    assert((a == 0 || a == 1) && (b == 0 || b == 4) && (c == 0 || c == 8) && (d == 0 || d == 64) ==> {
        &&& (((a | b) | c) | d) & 1 != 0 <==> a == 1
        &&& (((a | b) | c) | d) & 4 != 0 <==> b == 4
        &&& (((a | b) | c) | d) & 8 != 0 <==> c == 8
        &&& (((a | b) | c) | d) & 64 != 0 <==> d == 64
    }) by (bit_vector);
    assert(((0u32 | 0u32) | 0u32) | 0u32 == 0u32) by (bit_vector);
}

/// Adding Shift to a set of modifiers sets bit 1 of its mask.
pub proof fn lemma_mask_with_shift(s: Set<Mod>)
    ensures
        spec_mod_mask(s.insert(Mod::Shift)) == spec_mod_mask(s) | 1u32,
{
    let t = s.insert(Mod::Shift);
    assert(t.contains(Mod::Shift));
    assert(t.contains(Mod::Ctrl) == s.contains(Mod::Ctrl));
    assert(t.contains(Mod::Alt) == s.contains(Mod::Alt));
    assert(t.contains(Mod::Super) == s.contains(Mod::Super));
    let a = if s.contains(Mod::Shift) { 1u32 } else { 0u32 };
    let b = if s.contains(Mod::Ctrl) { 4u32 } else { 0u32 };
    let c = if s.contains(Mod::Alt) { 8u32 } else { 0u32 };
    let d = if s.contains(Mod::Super) { 64u32 } else { 0u32 };
    assert((a == 0 || a == 1) ==> ((1u32 | b) | c) | d == (((a | b) | c) | d) | 1u32) by (bit_vector);
}

/// Different sets of modifiers give different masks.
pub proof fn lemma_mask_injective(s: Set<Mod>, t: Set<Mod>)
    requires
        spec_mod_mask(s) == spec_mod_mask(t),
    ensures
        s == t,
{
    assert forall|n: Mod| s.contains(n) == t.contains(n) by {
        lemma_mask_encodes_set(s, n);
        lemma_mask_encodes_set(t, n);
    }
    assert(s =~= t);
}

/// Only the expanded panel takes keyboard focus and reserves space (its full
/// height); a hidden panel reserves nothing, and offers the launcher strip
/// only in touch-first mode.
pub proof fn lemma_surface_follows_shell(shell: ShellView, touch_first_only: bool)
    ensures
        (spec_surface_config(shell, touch_first_only).interactivity == Interactivity::OnDemand)
            <==> shell.state == ShellState::Expanded,
        shell.state == ShellState::Expanded ==> spec_surface_config(shell, touch_first_only).exclusive_zone
            == FULL_H,
        shell.state == ShellState::Hidden ==> spec_surface_config(shell, touch_first_only).exclusive_zone
            == 0,
        spec_surface_config(shell, touch_first_only).height == TOUCH_LAUNCHER_H <==> (touch_first_only
            && shell.launcher_wanted()),
        shell.state != ShellState::Hidden ==> spec_surface_config(shell, touch_first_only).width == FULL_W
            && spec_surface_config(shell, touch_first_only).exclusive_zone == spec_surface_config(shell, touch_first_only).height,
        shell.state == ShellState::Hidden && !(touch_first_only && shell.launcher_wanted()) ==> spec_surface_config(
            shell,
            touch_first_only,
        ).width == 1 && spec_surface_config(shell, touch_first_only).height == 1,
        spec_surface_config(shell, touch_first_only).height <= FULL_H,
        shell.state == ShellState::Expanded ==> spec_surface_config(shell, touch_first_only).height == FULL_H,
{
}

/// Pruning keeps exactly the highlights that are still lit, in order.
pub proof fn lemma_live_flashes(flashes: Seq<FlashView>, now_ms: u64)
    ensures
        forall|i: int|
            0 <= i < KeyboardView::live_flashes(flashes, now_ms).len() ==> #[trigger] KeyboardView::live_flashes(
                flashes,
                now_ms,
            )[i].until_ms > now_ms,
        forall|i: int|
            0 <= i < flashes.len() && #[trigger] flashes[i].until_ms > now_ms ==> KeyboardView::live_flashes(
                flashes,
                now_ms,
            ).contains(flashes[i]),
        KeyboardView::live_flashes(flashes, now_ms).len() <= flashes.len(),
    decreases flashes.len(),
{
    if flashes.len() > 0 {
        let rest = flashes.drop_last();
        lemma_live_flashes(rest, now_ms);
        let kept = KeyboardView::live_flashes(rest, now_ms);
        assert forall|i: int| 0 <= i < flashes.len() && #[trigger] flashes[i].until_ms > now_ms implies KeyboardView::live_flashes(
            flashes,
            now_ms,
        ).contains(flashes[i]) by {
            if i < flashes.len() - 1 {
                assert(rest[i] == flashes[i]);
                let k = choose|k: int| 0 <= k < kept.len() && kept[k] == rest[i];
                if flashes.last().until_ms > now_ms {
                    assert(kept.push(flashes.last())[k] == kept[k]);
                }
            } else {
                assert(kept.push(flashes.last())[kept.len() as int] == flashes.last());
            }
        }
    }
}


/// A tap on a modifier key changes only that modifier: every other modifier
/// stays armed or locked exactly as it was; the tapped one moves one step
/// along off -> armed -> locked -> off (a locked one is unlocked). The one
/// command sent carries a bit for every modifier in effect after the tap, so
/// with Ctrl armed a tap on Shift sends Ctrl|Shift. Shell state and layer are
/// untouched.
pub proof fn lemma_modifier_tap(v: KeyboardView, m: Mod, label: Seq<char>, now_ms: u64)
    ensures
        ({
            let w = v.after_key(KeyAction::Modifier(m), label, now_ms);
            let e = v.key_effects(KeyAction::Modifier(m), label);
            &&& forall|n: Mod|
                n != m ==> (#[trigger] w.armed.contains(n) == v.armed.contains(n) && w.locked.contains(n)
                    == v.locked.contains(n))
            &&& v.locked.contains(m) ==> !w.locked.contains(m) && w.armed.contains(m) == v.armed.contains(m)
            &&& (!v.locked.contains(m) && v.armed.contains(m)) ==> (!w.armed.contains(m) && w.locked.contains(m))
            &&& (!v.locked.contains(m) && !v.armed.contains(m)) ==> (w.armed.contains(m) && !w.locked.contains(m))
            &&& w.shell == v.shell
            &&& w.layer == v.layer
            &&& e.len() == 1
            &&& e[0] matches EffectView::Send(VkCommand::Modifiers(mask)) && forall|n: Mod|
                ((mask & spec_mask_bit(n)) != 0) <==> (#[trigger] w.armed.contains(n) || w.locked.contains(n))
        }),
{
    let w = v.after_key(KeyAction::Modifier(m), label, now_ms);
    let t = v.after_toggle(m);
    let e = v.key_effects(KeyAction::Modifier(m), label);
    let mask = spec_mod_mask(t.active_mods());
    assert(t.armed == w.armed && t.locked == w.locked);
    assert(e[0] == EffectView::Send(VkCommand::Modifiers(mask)));
    assert forall|n: Mod| ((mask & spec_mask_bit(n)) != 0) <==> (#[trigger] w.armed.contains(n) || w.locked.contains(n)) by {
        lemma_mask_encodes_set(t.active_mods(), n);
        assert(t.active_mods().contains(n) == (w.armed.contains(n) || w.locked.contains(n)));
    }
    assert(forall|n: Mod| n != m ==> (#[trigger] w.armed.contains(n) == v.armed.contains(n) && w.locked.contains(n)
        == v.locked.contains(n)));
}

/// Only the hide key touches the panel's shell state: a tap on any other key
/// leaves whether the panel is shown, whether a text field is focused and
/// whether the user dismissed it exactly as they were, and asks for no
/// surface change; only a layer key changes the layer.
pub proof fn lemma_only_hide_touches_shell(v: KeyboardView, action: KeyAction, label: Seq<char>, now_ms: u64)
    ensures
        action != KeyAction::Hide ==> v.after_key(action, label, now_ms).shell == v.shell,
        action != KeyAction::Hide ==> forall|i: int|
            0 <= i < v.key_effects(action, label).len() ==> !(#[trigger] v.key_effects(action, label)[i] is Configure),
        action == KeyAction::Hide ==> v.after_key(action, label, now_ms).shell.state == ShellState::Hidden
            && v.after_key(action, label, now_ms).shell.user_dismissed,
        !(action is Layer) ==> v.after_key(action, label, now_ms).layer == v.layer,
        action matches KeyAction::Layer(l) ==> v.after_key(action, label, now_ms).layer == l,
{
}

/// The compositor's size is taken as is when it proposes one: a non-zero
/// extent is adopted unchanged whatever the current one; a zero keeps the
/// current extent, or 1 when that is 0. The result is never 0.
pub proof fn lemma_configured_extent(proposed: u32, current: u32)
    ensures
        proposed != 0 ==> spec_configured_extent(proposed, current) == proposed,
        proposed == 0 && current != 0 ==> spec_configured_extent(proposed, current) == current,
        proposed == 0 && current == 0 ==> spec_configured_extent(proposed, current) == 1,
        spec_configured_extent(proposed, current) >= 1,
{
}

/// A configure event adopts the compositor's non-zero width and height as they
/// are, and changes nothing else the keyboard holds but `first_configure`.
pub proof fn lemma_configure_adopts_size(v: KeyboardView, w: u32, h: u32)
    ensures
        ({
            let after = KeyboardView {
                width: spec_configured_extent(w, v.width),
                height: spec_configured_extent(h, v.height),
                first_configure: false,
                ..v
            };
            &&& w != 0 ==> after.width == w
            &&& h != 0 ==> after.height == h
            &&& after.shell == v.shell && after.armed == v.armed && after.locked == v.locked && after.layer == v.layer
        }),
{
}


/// A code key is sent with exactly the modifiers in effect before the tap:
/// bit n of the mask is set when n was armed or locked. Afterwards the mask
/// sent (if any one-shot modifier was released) holds exactly the locked
/// modifiers.
pub proof fn lemma_code_key_mask(v: KeyboardView, code: u32, label: Seq<char>)
    requires
        code != 0,
    ensures
        v.key_effects(KeyAction::Code(code), label)[0] matches EffectView::Send(VkCommand::Modifiers(mask))
            && forall|n: Mod| ((mask & spec_mask_bit(n)) != 0) <==> (#[trigger] v.armed.contains(n) || v.locked.contains(n)),
        v.armed != Set::<Mod>::empty() ==> (v.key_effects(KeyAction::Code(code), label)[2] matches EffectView::Send(
            VkCommand::Modifiers(mask),
        ) && forall|n: Mod| ((mask & spec_mask_bit(n)) != 0) <==> #[trigger] v.locked.contains(n)),
{
    let mask = spec_mod_mask(v.active_mods());
    assert forall|n: Mod| ((mask & spec_mask_bit(n)) != 0) <==> (#[trigger] v.armed.contains(n) || v.locked.contains(n)) by {
        lemma_mask_encodes_set(v.active_mods(), n);
    }
    assert forall|n: Mod| ((spec_mod_mask(v.locked) & spec_mask_bit(n)) != 0) <==> #[trigger] v.locked.contains(n) by {
        lemma_mask_encodes_set(v.locked, n);
    }
}

} // verus!

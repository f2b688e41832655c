//! When the keyboard panel is shown: a small state machine driven by the
//! compositor's input-method events and by the user's taps.

use vstd::prelude::*;

verus! {

/// How the panel currently presents itself.
#[derive(Debug, Clone, Copy, PartialEq, Eq, Structural)]
pub enum ShellState {
    Hidden,
    CollapsedReady,
    Expanded,
}

/// The abstract state of a [`ShellStateMachine`].
pub struct ShellView {
    pub state: ShellState,
    /// A text field is focused (the input method is active).
    pub im_active: bool,
    /// The user dismissed the panel during the current activation.
    pub user_dismissed: bool,
}

impl ShellView {
    /// The state of a freshly created machine.
    pub open spec fn initial() -> ShellView {
        ShellView { state: ShellState::Hidden, im_active: false, user_dismissed: false }
    }

    /// A text field gained focus.
    pub open spec fn after_im_activate(self, touch_first_only: bool) -> ShellView {
        ShellView {
            state: if self.user_dismissed || touch_first_only {
                ShellState::Hidden
            } else {
                ShellState::Expanded
            },
            im_active: true,
            user_dismissed: self.user_dismissed,
        }
    }

    /// Focus left the text field.
    pub open spec fn after_im_deactivate(self) -> ShellView {
        ShellView::initial()
    }

    /// The user touched the launcher (or the collapsed bar).
    pub open spec fn after_touch_expand(self) -> ShellView {
        if self.im_active && !self.user_dismissed && (self.state == ShellState::CollapsedReady
            || self.state == ShellState::Hidden) {
            ShellView { state: ShellState::Expanded, ..self }
        } else {
            self
        }
    }

    /// The user dismissed the panel.
    pub open spec fn after_user_dismiss(self) -> ShellView {
        ShellView { state: ShellState::Hidden, user_dismissed: true, ..self }
    }

    /// The thin "tap here to open" strip is offered.
    pub open spec fn launcher_wanted(self) -> bool {
        self.im_active && !self.user_dismissed && self.state == ShellState::Hidden
    }

    /// What every reachable state satisfies.
    pub open spec fn reachable_shape(self) -> bool {
        &&& self.state != ShellState::CollapsedReady
        &&& !self.im_active ==> self.state == ShellState::Hidden
        &&& self.user_dismissed ==> self.state == ShellState::Hidden
    }
}

#[derive(Debug)]
pub struct ShellStateMachine {
    pub state: ShellState,
    /// A text field is focused (the input method is active).
    pub im_active: bool,
    /// The user dismissed the panel during the current activation.
    pub user_dismissed: bool,
}

impl View for ShellStateMachine {
    type V = ShellView;

    open spec fn view(&self) -> ShellView {
        ShellView {
            state: self.state,
            im_active: self.im_active,
            user_dismissed: self.user_dismissed,
        }
    }
}

impl ShellStateMachine {
    /// The current presentation.
    pub fn state(&self) -> (s: ShellState)
        ensures
            s == self@.state,
    {
        self.state
    }

    pub fn new() -> (r: Self)
        ensures
            r@ == ShellView::initial(),
    {
        Self { state: ShellState::Hidden, im_active: false, user_dismissed: false }
    }

    pub fn on_im_activate(&mut self, touch_first_only: bool)
        ensures
            final(self)@ == old(self)@.after_im_activate(touch_first_only),
    {
        self.im_active = true;
        if self.user_dismissed {
            // Keep it hidden until the compositor sends a real deactivate.
            // Some apps/tabs can emit repeated activate events while still focused.
            self.state = ShellState::Hidden;
            return;
        }
        self.state = if touch_first_only {
            // Strict touch-first mode: do not auto-show on focus events alone.
            // The user must explicitly touch the launcher area to expand.
            ShellState::Hidden
        } else {
            ShellState::Expanded
        };
    }

    pub fn on_im_deactivate(&mut self)
        ensures
            final(self)@ == old(self)@.after_im_deactivate(),
    {
        self.im_active = false;
        self.user_dismissed = false;
        self.state = ShellState::Hidden;
    }

    pub fn on_touch_expand(&mut self)
        ensures
            final(self)@ == old(self)@.after_touch_expand(),
    {
        if self.im_active && !self.user_dismissed && (self.state == ShellState::CollapsedReady
            || self.state == ShellState::Hidden) {
            self.state = ShellState::Expanded;
        }
    }

    pub fn on_user_dismiss(&mut self)
        ensures
            final(self)@ == old(self)@.after_user_dismiss(),
    {
        self.user_dismissed = true;
        self.state = ShellState::Hidden;
    }

    pub fn should_show_touch_launcher(&self) -> (r: bool)
        ensures
            r == self@.launcher_wanted(),
    {
        self.im_active && !self.user_dismissed && self.state == ShellState::Hidden
    }
}

/// One input to the panel's state machine.
pub enum ShellEvent {
    ImActivate { touch_first_only: bool },
    ImDeactivate,
    TouchExpand,
    UserDismiss,
}

impl ShellView {
    /// The state after one event.
    pub open spec fn step(self, e: ShellEvent) -> ShellView {
        match e {
            ShellEvent::ImActivate { touch_first_only } => self.after_im_activate(touch_first_only),
            ShellEvent::ImDeactivate => self.after_im_deactivate(),
            ShellEvent::TouchExpand => self.after_touch_expand(),
            ShellEvent::UserDismiss => self.after_user_dismiss(),
        }
    }

    /// The state after a sequence of events, applied in order.
    pub open spec fn run(self, events: Seq<ShellEvent>) -> ShellView
        decreases events.len(),
    {
        if events.len() == 0 {
            self
        } else {
            self.step(events[0]).run(events.drop_first())
        }
    }
}

/// Every event keeps the shape of reachable states.
pub proof fn lemma_step_keeps_shape(v: ShellView, e: ShellEvent)
    requires
        v.reachable_shape(),
    ensures
        v.step(e).reachable_shape(),
{
}

/// From a fresh machine, whatever the events, the panel is never in the
/// collapsed state, is hidden whenever no text field is focused, and is hidden
/// while dismissed; in particular an expanded panel always has a focused text
/// field and was not dismissed.
pub proof fn lemma_reachable_states(events: Seq<ShellEvent>)
    ensures
        ShellView::initial().run(events).reachable_shape(),
        ShellView::initial().run(events).state == ShellState::Expanded ==> {
            &&& ShellView::initial().run(events).im_active
            &&& !ShellView::initial().run(events).user_dismissed
        },
{
    lemma_run_keeps_shape(ShellView::initial(), events);
}

/// Running any sequence of events keeps the shape of reachable states.
pub proof fn lemma_run_keeps_shape(v: ShellView, events: Seq<ShellEvent>)
    requires
        v.reachable_shape(),
    ensures
        v.run(events).reachable_shape(),
    decreases events.len(),
{
    if events.len() > 0 {
        lemma_step_keeps_shape(v, events[0]);
        lemma_run_keeps_shape(v.step(events[0]), events.drop_first());
    }
}

/// A dismissal sticks: until the compositor reports that focus left the text
/// field, no activation or touch brings the panel back.
pub proof fn lemma_dismiss_sticks(v: ShellView, events: Seq<ShellEvent>)
    requires
        v.user_dismissed,
        v.state == ShellState::Hidden,
        forall|i: int| 0 <= i < events.len() ==> !(#[trigger] events[i] is ImDeactivate),
    ensures
        v.run(events).state == ShellState::Hidden,
        v.run(events).user_dismissed,
    decreases events.len(),
{
    if events.len() > 0 {
        let rest = events.drop_first();
        assert(!(events[0] is ImDeactivate));
        assert forall|i: int| 0 <= i < rest.len() implies !(#[trigger] rest[i] is ImDeactivate) by {
            assert(rest[i] == events[i + 1]);
        }
        lemma_dismiss_sticks(v.step(events[0]), rest);
    }
}

/// Losing focus forgets everything: the machine is as new.
pub proof fn lemma_deactivate_resets(v: ShellView)
    ensures
        v.after_im_deactivate() == ShellView::initial(),
        v.step(ShellEvent::ImDeactivate) == ShellView::initial(),
{
}

/// In touch-first mode focus alone never shows the panel: without a touch,
/// a panel that is not expanded stays so.
pub proof fn lemma_touch_first_needs_touch(v: ShellView, events: Seq<ShellEvent>)
    requires
        v.state != ShellState::Expanded,
        forall|i: int|
            0 <= i < events.len() ==> {
                &&& !(#[trigger] events[i] is TouchExpand)
                &&& events[i] is ImActivate ==> events[i]->touch_first_only
            },
    ensures
        v.run(events).state != ShellState::Expanded,
    decreases events.len(),
{
    if events.len() > 0 {
        let rest = events.drop_first();
        assert(!(events[0] is TouchExpand));
        assert forall|i: int|
            0 <= i < rest.len() implies {
                &&& !(#[trigger] rest[i] is TouchExpand)
                &&& rest[i] is ImActivate ==> rest[i]->touch_first_only
            } by {
            assert(rest[i] == events[i + 1]);
            assert(!(events[i + 1] is TouchExpand));
        }
        lemma_touch_first_needs_touch(v.step(events[0]), rest);
    }
}

/// Outside touch-first mode, focusing a text field shows the panel unless the
/// user dismissed it; a touch on the launcher shows it whenever the launcher is
/// offered; the launcher is offered exactly when a focused, undismissed panel
/// is hidden.
pub proof fn lemma_show_rules(v: ShellView)
    ensures
        !v.user_dismissed ==> v.after_im_activate(false).state == ShellState::Expanded,
        v.launcher_wanted() ==> v.after_touch_expand().state == ShellState::Expanded,
        v.launcher_wanted() <==> (v.im_active && !v.user_dismissed && v.state == ShellState::Hidden),
        !v.after_user_dismiss().launcher_wanted(),
{
}


/// What a focus event does, whatever the state before: the text field is
/// then focused; in touch-first mode the panel is always hidden afterwards
/// (even if it was expanded), offering the launcher unless dismissed;
/// otherwise it is expanded unless the user dismissed it; a dismissal is
/// neither made nor forgotten by it.
pub proof fn lemma_activation_outcome(v: ShellView, touch_first_only: bool)
    ensures
        v.after_im_activate(touch_first_only).im_active,
        v.after_im_activate(touch_first_only).user_dismissed == v.user_dismissed,
        touch_first_only ==> v.after_im_activate(touch_first_only).state == ShellState::Hidden,
        touch_first_only ==> (v.after_im_activate(touch_first_only).launcher_wanted() <==> !v.user_dismissed),
        !touch_first_only ==> (v.after_im_activate(touch_first_only).state == ShellState::Expanded
            <==> !v.user_dismissed),
        !touch_first_only && v.user_dismissed ==> v.after_im_activate(touch_first_only).state == ShellState::Hidden,
{
}

} // verus!

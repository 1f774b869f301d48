//! Whether the popover is shown, and in which presentation mode the process runs.
use vstd::prelude::*;

verus! {

/// Presentation mode of the process: `Accessory` has no dock or task-switcher
/// presence; `Regular` is a foreground process.
#[derive(Clone, Copy, Debug, PartialEq, Eq, Structural)]
pub enum Mode {
    Accessory,
    Regular,
}

/// Mouse button reported by a tray icon click.
#[derive(Clone, Copy, Debug, PartialEq, Eq, Structural)]
pub enum MouseButton {
    Left,
    Right,
    Middle,
}

/// Phase of a mouse button in a tray icon click.
#[derive(Clone, Copy, Debug, PartialEq, Eq, Structural)]
pub enum ButtonState {
    Up,
    Down,
}

/// The authoritative record of what is presented.
#[derive(Clone, Copy, Debug, PartialEq, Eq, Structural)]
pub struct PresentationState {
    pub popover_visible: bool,
    pub mode: Mode,
}

/// Only a released left button toggles the popover.
pub open spec fn is_toggle_click(button: MouseButton, state: ButtonState) -> bool {
    button == MouseButton::Left && state == ButtonState::Up
}

/// Visibility after one click.
pub open spec fn visible_after_click(visible: bool, button: MouseButton, state: ButtonState) -> bool {
    if is_toggle_click(button, state) {
        !visible
    } else {
        visible
    }
}

/// Visibility after a sequence of clicks, taken in order.
pub open spec fn visible_after_clicks(visible: bool, clicks: Seq<(MouseButton, ButtonState)>) -> bool
    decreases clicks.len(),
{
    if clicks.len() == 0 {
        visible
    } else {
        let last = clicks.last();
        visible_after_click(visible_after_clicks(visible, clicks.drop_last()), last.0, last.1)
    }
}

/// How many clicks of the sequence toggle the popover.
pub open spec fn toggle_count(clicks: Seq<(MouseButton, ButtonState)>) -> nat
    decreases clicks.len(),
{
    if clicks.len() == 0 {
        0
    } else {
        let last = clicks.last();
        toggle_count(clicks.drop_last()) + if is_toggle_click(last.0, last.1) {
            1nat
        } else {
            0nat
        }
    }
}

impl PresentationState {
    /// The state at startup: popover hidden, accessory mode.
    pub fn new() -> (r: Self)
        ensures
            !r.popover_visible,
            r.mode == Mode::Accessory,
    {
        PresentationState { popover_visible: false, mode: Mode::Accessory }
    }

    /// The state that every file dialog leaves behind.
    pub open spec fn restored() -> Self {
        PresentationState { popover_visible: true, mode: Mode::Accessory }
    }

    /// Handles one tray icon click: a released left button toggles the popover,
    /// anything else leaves the state as it is.
    pub fn handle_click(&mut self, button: MouseButton, state: ButtonState)
        ensures
            final(self).popover_visible == visible_after_click(old(self).popover_visible, button, state),
            final(self).mode == old(self).mode,
    {
        if button == MouseButton::Left && state == ButtonState::Up {
            self.popover_visible = !self.popover_visible;
        }
    }

    /// Handles a sequence of tray icon clicks in order.
    pub fn handle_clicks(&mut self, clicks: &Vec<(MouseButton, ButtonState)>)
        ensures
            final(self).popover_visible == visible_after_clicks(old(self).popover_visible, clicks@),
            final(self).mode == old(self).mode,
    {
        let ghost start = self.popover_visible;
        let mut i: usize = 0;
        while i < clicks.len()
            invariant
                i <= clicks@.len(),
                self.popover_visible == visible_after_clicks(start, clicks@.subrange(0, i as int)),
                self.mode == old(self).mode,
            decreases clicks@.len() - i,
        {
            let (button, state) = clicks[i];
            proof {
                assert(clicks@.subrange(0, i + 1).drop_last() == clicks@.subrange(0, i as int));
            }
            self.handle_click(button, state);
            i = i + 1;
        }
        proof {
            assert(clicks@.subrange(0, clicks@.len() as int) == clicks@);
        }
    }
}

/// A single click toggles the popover if and only if it is a released left
/// button; any other click leaves visibility unchanged.
pub proof fn lemma_click_toggles_iff_left_up(visible: bool, button: MouseButton, state: ButtonState)
    ensures
        (visible_after_click(visible, button, state) != visible) <==> (button == MouseButton::Left
            && state == ButtonState::Up),
{
}

/// Over any sequence of clicks, the popover ends up toggled exactly when the
/// number of released left-button clicks in it is odd.
pub proof fn lemma_clicks_toggle_by_parity(visible: bool, clicks: Seq<(MouseButton, ButtonState)>)
    ensures
        visible_after_clicks(visible, clicks) == (visible != (toggle_count(clicks) % 2 == 1)),
    decreases clicks.len(),
{
    if clicks.len() > 0 {
        lemma_clicks_toggle_by_parity(visible, clicks.drop_last());
    }
}

} // verus!

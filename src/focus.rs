//! Debounced hiding of the popover on focus loss: a loss of focus schedules a
//! hide after a short delay, and regaining focus within it cancels the hide.
use vstd::prelude::*;

verus! {

/// Delay between a loss of focus and the hide it triggers, in milliseconds.
pub const HIDE_DELAY_MS: u64 = 120;

/// The time at which a loss of focus at `now` hides the popover.
pub open spec fn hide_deadline(now: u64) -> u64 {
    if now as int + HIDE_DELAY_MS as int > u64::MAX as int {
        u64::MAX
    } else {
        (now + HIDE_DELAY_MS) as u64
    }
}

/// Pending hide, if any, after a loss of focus.
pub struct FocusDebounce {
    hide_at: Option<u64>,
}

impl FocusDebounce {
    /// When the pending hide is due, if one is pending.
    pub closed spec fn deadline(&self) -> Option<u64> {
        self.hide_at
    }

    /// No hide pending.
    pub fn new() -> (r: Self)
        ensures
            r.deadline() is None,
    {
        FocusDebounce { hide_at: None }
    }

    /// When the pending hide is due, if one is pending.
    pub fn pending_deadline(&self) -> (r: Option<u64>)
        ensures
            r == self.deadline(),
    {
        self.hide_at
    }

    /// The window lost focus at `now_ms`: a hide becomes due after the delay,
    /// replacing any earlier pending one.
    pub fn on_focus_lost(&mut self, now_ms: u64)
        ensures
            final(self).deadline() == Some(hide_deadline(now_ms)),
    {
        let at = if now_ms > u64::MAX - HIDE_DELAY_MS {
            u64::MAX
        } else {
            now_ms + HIDE_DELAY_MS
        };
        self.hide_at = Some(at);
    }

    /// The window regained focus: any pending hide is cancelled.
    pub fn on_focus_gained(&mut self)
        ensures
            final(self).deadline() is None,
    {
        self.hide_at = None;
    }

    /// The clock reads `now_ms`: returns whether the popover is to be hidden
    /// now, which is when a hide is pending and due; the hide is then no
    /// longer pending, so it happens once.
    pub fn on_tick(&mut self, now_ms: u64) -> (hide: bool)
        ensures
            hide == (old(self).deadline() matches Some(d) && now_ms >= d),
            hide ==> final(self).deadline() is None,
            !hide ==> final(self).deadline() == old(self).deadline(),
    {
        match self.hide_at {
            Some(d) => {
                if now_ms >= d {
                    self.hide_at = None;
                    true
                } else {
                    false
                }
            },
            None => false,
        }
    }
}

} // verus!

//! Work for the UI-owning thread, and the queue through which every other
//! component hands it over. The presentation state changes only when the UI
//! thread runs a task taken from this queue.
use vstd::prelude::*;
use crate::presentation::{ButtonState, Mode, MouseButton, PresentationState, visible_after_click};

verus! {

/// One unit of work for the UI thread.
#[derive(Clone, Copy, Debug, PartialEq, Eq, Structural)]
pub enum UiTask {
    /// A tray icon click, forwarded to the presentation state machine.
    Click(MouseButton, ButtonState),
    /// Hide the popover if it is shown.
    HidePopover,
    /// Show the popover.
    ShowPopover,
    /// Switch the process presentation mode.
    SetMode(Mode),
    /// Open the native file chooser of the pending dialog request; the
    /// presentation state is left as it is.
    OpenFileDialog,
    /// Return to accessory mode and show the popover again after a dialog.
    RestoreAfterDialog,
}

/// What running one task does to the presentation state.
pub open spec fn apply_task(s: PresentationState, t: UiTask) -> PresentationState {
    match t {
        UiTask::Click(b, st) => PresentationState {
            popover_visible: visible_after_click(s.popover_visible, b, st),
            ..s
        },
        UiTask::HidePopover => PresentationState { popover_visible: false, ..s },
        UiTask::ShowPopover => PresentationState { popover_visible: true, ..s },
        UiTask::SetMode(m) => PresentationState { mode: m, ..s },
        UiTask::OpenFileDialog => s,
        UiTask::RestoreAfterDialog => PresentationState::restored(),
    }
}

/// What running tasks in order does to the presentation state.
pub open spec fn apply_tasks(s: PresentationState, tasks: Seq<UiTask>) -> PresentationState
    decreases tasks.len(),
{
    if tasks.len() == 0 {
        s
    } else {
        apply_task(apply_tasks(s, tasks.drop_last()), tasks.last())
    }
}

/// Failures of the dispatcher.
#[derive(Clone, Copy, Debug, PartialEq, Eq, Structural)]
pub enum DispatchError {
    /// The UI thread no longer accepts work (it is shutting down).
    SchedulingFailure,
}

/// Runs one task on the presentation state.
pub fn run_task(state: &mut PresentationState, task: UiTask)
    ensures
        *final(state) == apply_task(*old(state), task),
{
    match task {
        UiTask::Click(b, st) => state.handle_click(b, st),
        UiTask::HidePopover => state.popover_visible = false,
        UiTask::ShowPopover => state.popover_visible = true,
        UiTask::SetMode(m) => state.mode = m,
        UiTask::OpenFileDialog => {},
        UiTask::RestoreAfterDialog => {
            state.mode = Mode::Accessory;
            state.popover_visible = true;
        },
    }
}

/// First-in first-out queue of work for the UI thread.
pub struct UiQueue {
    tasks: Vec<UiTask>,
    accepting: bool,
}

impl UiQueue {
    /// Tasks waiting to run, oldest first.
    pub closed spec fn pending(&self) -> Seq<UiTask> {
        self.tasks@
    }

    /// Whether the UI thread still accepts work.
    pub closed spec fn is_accepting(&self) -> bool {
        self.accepting
    }

    /// An empty queue that accepts work.
    pub fn new() -> (r: Self)
        ensures
            r.pending() == Seq::<UiTask>::empty(),
            r.is_accepting(),
    {
        UiQueue { tasks: Vec::new(), accepting: true }
    }

    /// Whether the UI thread still accepts work.
    pub fn accepting(&self) -> (r: bool)
        ensures
            r == self.is_accepting(),
    {
        self.accepting
    }

    /// Number of tasks waiting to run.
    pub fn len(&self) -> (r: usize)
        ensures
            r == self.pending().len(),
    {
        self.tasks.len()
    }

    /// Queues a task behind those already waiting and returns at once; fails,
    /// leaving the queue as it was, once the UI thread has stopped accepting work.
    pub fn schedule(&mut self, task: UiTask) -> (r: Result<(), DispatchError>)
        ensures
            final(self).is_accepting() == old(self).is_accepting(),
            r is Ok <==> old(self).is_accepting(),
            r is Ok ==> final(self).pending() == old(self).pending().push(task),
            r is Err ==> final(self).pending() == old(self).pending() && r == Err::<(), DispatchError>(
                DispatchError::SchedulingFailure,
            ),
    {
        if self.accepting {
            self.tasks.push(task);
            Ok(())
        } else {
            Err(DispatchError::SchedulingFailure)
        }
    }

    /// Stops accepting work; tasks already queued still run.
    pub fn shut_down(&mut self)
        ensures
            !final(self).is_accepting(),
            final(self).pending() == old(self).pending(),
    {
        self.accepting = false;
    }

    /// Runs the oldest waiting task, if any, and returns it so that the UI
    /// thread can perform its native side.
    pub fn run_next(&mut self, state: &mut PresentationState) -> (r: Option<UiTask>)
        ensures
            final(self).is_accepting() == old(self).is_accepting(),
            old(self).pending().len() == 0 ==> r is None && *final(state) == *old(state)
                && final(self).pending() == old(self).pending(),
            old(self).pending().len() > 0 ==> r == Some(old(self).pending()[0]) && *final(state)
                == apply_task(*old(state), old(self).pending()[0]) && final(self).pending()
                == old(self).pending().drop_first(),
    {
        if self.tasks.len() == 0 {
            None
        } else {
            let task = self.tasks.remove(0);
            run_task(state, task);
            Some(task)
        }
    }

    /// Runs every waiting task in submission order and returns them in that order.
    pub fn run_pending(&mut self, state: &mut PresentationState) -> (r: Vec<UiTask>)
        ensures
            final(self).is_accepting() == old(self).is_accepting(),
            final(self).pending() == Seq::<UiTask>::empty(),
            r@ == old(self).pending(),
            *final(state) == apply_tasks(*old(state), old(self).pending()),
    {
        let ghost all = self.tasks@;
        let ghost start = *state;
        let mut ran: Vec<UiTask> = Vec::new();
        while self.tasks.len() > 0
            invariant
                self.accepting == old(self).accepting,
                all == ran@ + self.tasks@,
                *state == apply_tasks(start, ran@),
            decreases self.tasks@.len(),
        {
            let ghost before = self.tasks@;
            let ghost ran_before = ran@;
            let task = self.tasks.remove(0);
            run_task(state, task);
            ran.push(task);
            proof {
                assert(ran@.drop_last() == ran_before);
                assert(all == ran@ + self.tasks@) by {
                    assert(before == seq![task] + self.tasks@);
                }
            }
        }
        proof {
            assert(ran@ + self.tasks@ == ran@);
        }
        ran
    }
}

/// Running two batches one after the other is running their concatenation.
pub proof fn lemma_apply_tasks_append(s: PresentationState, a: Seq<UiTask>, b: Seq<UiTask>)
    ensures
        apply_tasks(s, a + b) == apply_tasks(apply_tasks(s, a), b),
    decreases b.len(),
{
    if b.len() == 0 {
        assert(a + b == a);
    } else {
        assert((a + b).drop_last() == a + b.drop_last());
        lemma_apply_tasks_append(s, a, b.drop_last());
    }
}

} // verus!

//! The file-dialog bridge. A caller on any thread asks for a file; the native
//! chooser opens on the UI thread; its completion callback restores the
//! presentation and delivers the result through a one-shot channel, which the
//! caller awaits.
use vstd::prelude::*;
use crate::dispatcher::{apply_tasks, lemma_apply_tasks_append, UiQueue, UiTask};
use crate::presentation::{Mode, PresentationState};

verus! {

/// A named set of file extensions offered by the chooser.
pub struct FileFilter {
    pub name: String,
    pub extensions: Vec<String>,
}

/// Extensions of the audio filter, in the order offered.
pub open spec fn audio_extensions() -> Seq<Seq<char>> {
    seq!["mp3"@, "m4a"@, "wav"@, "aac"@]
}

/// The filter of the audio picker: "Audio" with mp3, m4a, wav and aac.
pub fn audio_filter() -> (r: FileFilter)
    ensures
        r.name@ == "Audio"@,
        r.extensions.deep_view() == audio_extensions(),
{
    let mut extensions: Vec<String> = Vec::new();
    extensions.push(String::from_str("mp3"));
    extensions.push(String::from_str("m4a"));
    extensions.push(String::from_str("wav"));
    extensions.push(String::from_str("aac"));
    let r = FileFilter { name: String::from_str("Audio"), extensions };
    assert(r.extensions.deep_view() == audio_extensions());
    r
}

/// Whether the target platform needs a regular foreground process to host a
/// modal file chooser.
#[derive(Clone, Copy, Debug, PartialEq, Eq, Structural)]
pub struct DialogPolicy {
    pub switch_to_regular: bool,
}

/// The UI work that opening a dialog schedules: hide the popover first, enter
/// regular mode where the platform needs it, then open the chooser.
pub open spec fn begin_tasks(policy: DialogPolicy) -> Seq<UiTask> {
    if policy.switch_to_regular {
        seq![UiTask::HidePopover, UiTask::SetMode(Mode::Regular), UiTask::OpenFileDialog]
    } else {
        seq![UiTask::HidePopover, UiTask::OpenFileDialog]
    }
}

/// Failures of a file-dialog request.
#[derive(Clone, Copy, Debug, PartialEq, Eq, Structural)]
pub enum BridgeError {
    /// The delivery channel closed without a result.
    BridgeAborted,
    /// The UI thread could not accept the request's work.
    SchedulingFailure,
    /// The request had already delivered its one result.
    AlreadyDelivered,
}

/// The reason handed to the caller for each error.
pub open spec fn error_message(e: BridgeError) -> Seq<char> {
    match e {
        BridgeError::BridgeAborted => "dialog join error"@,
        BridgeError::SchedulingFailure => "ui thread unavailable"@,
        BridgeError::AlreadyDelivered => "dialog result already delivered"@,
    }
}

impl BridgeError {
    /// The reason handed to the caller.
    pub fn message(&self) -> (r: String)
        ensures
            r@ == error_message(*self),
    {
        match self {
            BridgeError::BridgeAborted => String::from_str("dialog join error"),
            BridgeError::SchedulingFailure => String::from_str("ui thread unavailable"),
            BridgeError::AlreadyDelivered => String::from_str("dialog result already delivered"),
        }
    }
}

/// An in-flight file-picker invocation.
pub struct PendingDialogRequest {
    filters: Vec<FileFilter>,
    policy: DialogPolicy,
    finished: bool,
}

impl PendingDialogRequest {
    /// Whether the request has delivered its result or failed.
    pub closed spec fn is_finished(&self) -> bool {
        self.finished
    }

    /// The filters the chooser offers.
    pub closed spec fn spec_filters(&self) -> Seq<FileFilter> {
        self.filters@
    }

    /// The platform policy the request was made with.
    pub closed spec fn spec_policy(&self) -> DialogPolicy {
        self.policy
    }

    /// The filters the chooser offers.
    pub fn filters(&self) -> (r: &Vec<FileFilter>)
        ensures
            r@ == self.spec_filters(),
    {
        &self.filters
    }

    /// Whether the request has delivered its result or failed.
    pub fn finished(&self) -> (r: bool)
        ensures
            r == self.is_finished(),
    {
        self.finished
    }

    /// Starts a request: schedules, in order, hiding the popover, regular mode
    /// where the policy asks for it, and opening the chooser. Returns at once.
    /// Fails with `SchedulingFailure`, scheduling nothing, when the UI thread
    /// no longer accepts work.
    pub fn begin(filters: Vec<FileFilter>, policy: DialogPolicy, queue: &mut UiQueue) -> (r: Result<
        PendingDialogRequest,
        BridgeError,
    >)
        ensures
            final(queue).is_accepting() == old(queue).is_accepting(),
            r is Ok <==> old(queue).is_accepting(),
            r matches Ok(req) ==> final(queue).pending() == old(queue).pending() + begin_tasks(policy)
                && !req.is_finished() && req.spec_policy() == policy && req.spec_filters() == filters@,
            r is Err ==> r == Err::<PendingDialogRequest, BridgeError>(BridgeError::SchedulingFailure)
                && final(queue).pending() == old(queue).pending(),
    {
        let ghost before = queue.pending();
        if !queue.accepting() {
            return Err(BridgeError::SchedulingFailure);
        }
        let _ = queue.schedule(UiTask::HidePopover);
        if policy.switch_to_regular {
            let _ = queue.schedule(UiTask::SetMode(Mode::Regular));
        }
        let _ = queue.schedule(UiTask::OpenFileDialog);
        assert(queue.pending() == before + begin_tasks(policy));
        Ok(PendingDialogRequest { filters, policy, finished: false })
    }

    /// Completion of the chooser, on the UI thread, with the chosen path or
    /// `None` when the user cancelled. The first call schedules the
    /// restoration of the presentation and returns the value to send into the
    /// delivery channel, whatever the outcome; it fails with
    /// `SchedulingFailure` when the UI thread no longer accepts work, and then
    /// nothing is sent. Any later call fails with `AlreadyDelivered` and
    /// schedules nothing.
    pub fn complete(&mut self, picked: Option<String>, queue: &mut UiQueue) -> (r: Result<
        Option<String>,
        BridgeError,
    >)
        ensures
            final(self).is_finished(),
            final(self).spec_policy() == old(self).spec_policy(),
            final(self).spec_filters() == old(self).spec_filters(),
            final(queue).is_accepting() == old(queue).is_accepting(),
            old(self).is_finished() ==> r == Err::<Option<String>, BridgeError>(
                BridgeError::AlreadyDelivered,
            ) && final(queue).pending() == old(queue).pending(),
            !old(self).is_finished() && old(queue).is_accepting() ==> r == Ok::<
                Option<String>,
                BridgeError,
            >(picked) && final(queue).pending() == old(queue).pending().push(
                UiTask::RestoreAfterDialog,
            ),
            !old(self).is_finished() && !old(queue).is_accepting() ==> r == Err::<
                Option<String>,
                BridgeError,
            >(BridgeError::SchedulingFailure) && final(queue).pending() == old(queue).pending(),
    {
        if self.finished {
            return Err(BridgeError::AlreadyDelivered);
        }
        self.finished = true;
        match queue.schedule(UiTask::RestoreAfterDialog) {
            Ok(()) => Ok(picked),
            Err(_) => Err(BridgeError::SchedulingFailure),
        }
    }
}

/// What the awaiting caller makes of the channel: the delivered value, or
/// `BridgeAborted` when the channel closed without one.
pub fn resolve_delivery(received: Option<Option<String>>) -> (r: Result<Option<String>, BridgeError>)
    ensures
        received is None ==> r == Err::<Option<String>, BridgeError>(BridgeError::BridgeAborted),
        received matches Some(v) ==> r == Ok::<Option<String>, BridgeError>(v),
{
    match received {
        Some(v) => Ok(v),
        None => Err(BridgeError::BridgeAborted),
    }
}

/// Starts the audio picker: one filter, "Audio" with mp3, m4a, wav and aac.
pub fn begin_pick_audio(policy: DialogPolicy, queue: &mut UiQueue) -> (r: Result<
    PendingDialogRequest,
    BridgeError,
>)
    ensures
        final(queue).is_accepting() == old(queue).is_accepting(),
        r is Ok <==> old(queue).is_accepting(),
        r matches Ok(req) ==> final(queue).pending() == old(queue).pending() + begin_tasks(policy)
            && !req.is_finished() && req.spec_policy() == policy && req.spec_filters().len() == 1
            && req.spec_filters()[0].name@ == "Audio"@ && req.spec_filters()[0].extensions.deep_view()
            == audio_extensions(),
        r is Err ==> r == Err::<PendingDialogRequest, BridgeError>(BridgeError::SchedulingFailure)
            && final(queue).pending() == old(queue).pending(),
{
    let mut filters: Vec<FileFilter> = Vec::new();
    filters.push(audio_filter());
    PendingDialogRequest::begin(filters, policy, queue)
}

/// Whatever the UI thread runs while the chooser is open, a dialog leaves the
/// popover shown and the process in accessory mode once its restoration has
/// run, whether a path was chosen or not.
pub proof fn lemma_dialog_restores_presentation(
    s: PresentationState,
    policy: DialogPolicy,
    during: Seq<UiTask>,
)
    ensures
        apply_tasks(s, begin_tasks(policy) + during + seq![UiTask::RestoreAfterDialog])
            == PresentationState::restored(),
{
    lemma_apply_tasks_append(
        s,
        begin_tasks(policy) + during,
        seq![UiTask::RestoreAfterDialog],
    );
    assert(seq![UiTask::RestoreAfterDialog].drop_last() == Seq::<UiTask>::empty());
}

/// Opening a dialog hides the popover whatever it showed before, and enters
/// regular mode exactly where the policy asks for it.
pub proof fn lemma_dialog_hides_before_open(s: PresentationState, policy: DialogPolicy)
    ensures
        !apply_tasks(s, begin_tasks(policy)).popover_visible,
        apply_tasks(s, begin_tasks(policy)).mode == (if policy.switch_to_regular {
            Mode::Regular
        } else {
            s.mode
        }),
{
    reveal_with_fuel(apply_tasks, 4);
    let t = begin_tasks(policy);
    if policy.switch_to_regular {
        assert(t.drop_last() == seq![UiTask::HidePopover, UiTask::SetMode(Mode::Regular)]);
        assert(t.drop_last().drop_last() == seq![UiTask::HidePopover]);
    } else {
        assert(t.drop_last() == seq![UiTask::HidePopover]);
    }
    assert(seq![UiTask::HidePopover].drop_last() == Seq::<UiTask>::empty());
}

} // verus!

use tray_popover::bridge::{
    audio_filter, begin_pick_audio, resolve_delivery, BridgeError, DialogPolicy, PendingDialogRequest,
};
use tray_popover::dispatcher::{UiQueue, UiTask};
use tray_popover::presentation::{Mode, PresentationState};

fn run_dialog(policy: DialogPolicy, start: PresentationState, outcome: Option<String>) -> (Result<Option<String>, BridgeError>, PresentationState) {
    let mut q = UiQueue::new();
    let mut s = start;
    let mut req = begin_pick_audio(policy, &mut q).unwrap();
    let opened = q.run_pending(&mut s);
    assert_eq!(opened.last(), Some(&UiTask::OpenFileDialog));
    assert!(!s.popover_visible);
    if policy.switch_to_regular {
        assert_eq!(s.mode, Mode::Regular);
    } else {
        assert_eq!(s.mode, start.mode);
    }
    let sent = req.complete(outcome, &mut q);
    q.run_pending(&mut s);
    let received = sent.ok();
    (resolve_delivery(received), s)
}

#[test]
fn cancelled_audio_pick_returns_none_and_restores() {
    for switch in [false, true] {
        let policy = DialogPolicy { switch_to_regular: switch };
        let (r, s) = run_dialog(policy, PresentationState::new(), None);
        assert_eq!(r, Ok(None));
        assert_eq!(s, PresentationState { popover_visible: true, mode: Mode::Accessory });
    }
}

#[test]
fn picked_path_is_delivered_and_restores() {
    for switch in [false, true] {
        let policy = DialogPolicy { switch_to_regular: switch };
        let shown = PresentationState { popover_visible: true, mode: Mode::Accessory };
        let (r, s) = run_dialog(policy, shown, Some("/music/a.mp3".to_string()));
        assert_eq!(r, Ok(Some("/music/a.mp3".to_string())));
        assert_eq!(s, PresentationState { popover_visible: true, mode: Mode::Accessory });
    }
}

#[test]
fn begin_schedules_hide_before_open() {
    let mut q = UiQueue::new();
    let mut s = PresentationState { popover_visible: true, mode: Mode::Accessory };
    begin_pick_audio(DialogPolicy { switch_to_regular: false }, &mut q).unwrap();
    assert_eq!(s.popover_visible, true);
    let ran = q.run_pending(&mut s);
    assert_eq!(ran, vec![UiTask::HidePopover, UiTask::OpenFileDialog]);
    begin_pick_audio(DialogPolicy { switch_to_regular: true }, &mut q).unwrap();
    let ran = q.run_pending(&mut s);
    assert_eq!(ran, vec![UiTask::HidePopover, UiTask::SetMode(Mode::Regular), UiTask::OpenFileDialog]);
}

#[test]
fn dropped_channel_is_bridge_aborted() {
    let r = resolve_delivery(None);
    assert_eq!(r, Err(BridgeError::BridgeAborted));
    assert_eq!(BridgeError::BridgeAborted.message(), "dialog join error");
    assert_eq!(resolve_delivery(Some(None)), Ok(None));
}

#[test]
fn result_is_delivered_at_most_once() {
    let mut q = UiQueue::new();
    let mut req = begin_pick_audio(DialogPolicy { switch_to_regular: false }, &mut q).unwrap();
    assert!(!req.finished());
    assert_eq!(req.complete(None, &mut q), Ok(None));
    assert!(req.finished());
    let queued = q.len();
    assert_eq!(req.complete(Some("x".to_string()), &mut q), Err(BridgeError::AlreadyDelivered));
    assert_eq!(q.len(), queued);
}

#[test]
fn shut_down_ui_fails_the_request() {
    let mut q = UiQueue::new();
    q.shut_down();
    assert!(matches!(
        begin_pick_audio(DialogPolicy { switch_to_regular: false }, &mut q),
        Err(BridgeError::SchedulingFailure)
    ));
    assert_eq!(q.len(), 0);

    let mut q = UiQueue::new();
    let mut req = PendingDialogRequest::begin(vec![audio_filter()], DialogPolicy { switch_to_regular: false }, &mut q).unwrap();
    q.shut_down();
    assert_eq!(req.complete(None, &mut q), Err(BridgeError::SchedulingFailure));
    assert_eq!(BridgeError::SchedulingFailure.message(), "ui thread unavailable");
}

#[test]
fn audio_filter_lists_audio_extensions() {
    let f = audio_filter();
    assert_eq!(f.name, "Audio");
    assert_eq!(f.extensions, vec!["mp3", "m4a", "wav", "aac"]);
    let mut q = UiQueue::new();
    let req = begin_pick_audio(DialogPolicy { switch_to_regular: false }, &mut q).unwrap();
    assert_eq!(req.filters().len(), 1);
    assert_eq!(req.filters()[0].name, "Audio");
}

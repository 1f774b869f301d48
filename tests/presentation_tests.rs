use tray_popover::dispatcher::{UiQueue, UiTask};
use tray_popover::presentation::{ButtonState, Mode, MouseButton, PresentationState};

#[test]
fn left_down_then_up_shows_hidden_popover_once() {
    let mut s = PresentationState::new();
    s.handle_click(MouseButton::Left, ButtonState::Down);
    assert!(!s.popover_visible);
    s.handle_click(MouseButton::Left, ButtonState::Up);
    assert!(s.popover_visible);
    assert_eq!(s.mode, Mode::Accessory);
}

#[test]
fn only_left_up_toggles() {
    let mut s = PresentationState::new();
    for (b, st) in [
        (MouseButton::Right, ButtonState::Up),
        (MouseButton::Right, ButtonState::Down),
        (MouseButton::Middle, ButtonState::Up),
        (MouseButton::Left, ButtonState::Down),
    ] {
        s.handle_click(b, st);
        assert!(!s.popover_visible);
    }
    s.handle_click(MouseButton::Left, ButtonState::Up);
    assert!(s.popover_visible);
    s.handle_click(MouseButton::Left, ButtonState::Up);
    assert!(!s.popover_visible);
}

#[test]
fn click_sequence_toggles_by_parity() {
    let mut s = PresentationState::new();
    let clicks = vec![
        (MouseButton::Left, ButtonState::Down),
        (MouseButton::Left, ButtonState::Up),
        (MouseButton::Right, ButtonState::Up),
        (MouseButton::Left, ButtonState::Down),
        (MouseButton::Left, ButtonState::Up),
        (MouseButton::Left, ButtonState::Down),
        (MouseButton::Left, ButtonState::Up),
    ];
    s.handle_clicks(&clicks);
    assert!(s.popover_visible);
    s.handle_clicks(&vec![(MouseButton::Left, ButtonState::Up)]);
    assert!(!s.popover_visible);
    s.handle_clicks(&Vec::new());
    assert!(!s.popover_visible);
}

#[test]
fn queue_runs_in_submission_order() {
    let mut q = UiQueue::new();
    let mut s = PresentationState::new();
    assert!(q.schedule(UiTask::ShowPopover).is_ok());
    assert!(q.schedule(UiTask::SetMode(Mode::Regular)).is_ok());
    assert!(q.schedule(UiTask::HidePopover).is_ok());
    assert_eq!(q.len(), 3);
    // nothing changes until the UI thread runs the work
    assert!(!s.popover_visible);
    assert_eq!(q.run_next(&mut s), Some(UiTask::ShowPopover));
    assert!(s.popover_visible);
    let ran = q.run_pending(&mut s);
    assert_eq!(ran, vec![UiTask::SetMode(Mode::Regular), UiTask::HidePopover]);
    assert_eq!(s, PresentationState { popover_visible: false, mode: Mode::Regular });
    assert_eq!(q.len(), 0);
    assert_eq!(q.run_next(&mut s), None);
}

#[test]
fn click_task_toggles_through_queue() {
    let mut q = UiQueue::new();
    let mut s = PresentationState::new();
    q.schedule(UiTask::Click(MouseButton::Left, ButtonState::Down)).unwrap();
    q.schedule(UiTask::Click(MouseButton::Left, ButtonState::Up)).unwrap();
    q.run_pending(&mut s);
    assert!(s.popover_visible);
}

#[test]
fn shut_down_queue_refuses_work() {
    let mut q = UiQueue::new();
    q.schedule(UiTask::ShowPopover).unwrap();
    q.shut_down();
    assert!(!q.accepting());
    assert!(q.schedule(UiTask::HidePopover).is_err());
    assert_eq!(q.len(), 1);
}

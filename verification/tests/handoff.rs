use ultidesk::handoff::{handoff_step, HandoffAction, HandoffEvent};
use ultidesk::ipc::{IpcRequest, MouseButtonDto};
use ultidesk::kvm::{KvmEvent, KvmMachine, KvmState};

fn remote() -> KvmMachine {
    let step = handoff_step(&KvmMachine::new(), HandoffEvent::Motion { x: 1919, y: 500, injected: false }, true);
    assert_eq!(step.action, HandoffAction::Capture);
    assert!(step.grab);
    step.machine
}

#[test]
fn touching_the_edge_hands_control_over() {
    let m = remote();
    assert_eq!(m.state(), KvmState::Remote);
}

#[test]
fn the_warp_coming_back_through_the_hook_is_ignored() {
    let m = KvmMachine::new();
    let step = handoff_step(&m, HandoffEvent::Motion { x: 1919, y: 500, injected: true }, true);
    assert_eq!(step.action, HandoffAction::Nothing);
    assert_eq!(step.send, None);
    assert!(!step.grab);
}

#[test]
fn the_release_combination_wins_and_tells_the_peer_to_let_go() {
    let step = handoff_step(&remote(), HandoffEvent::EmergencyRelease, true);
    assert!(!step.grab);
    assert_eq!(step.send, Some(IpcRequest::ReleaseAllInput));
    assert!(!step.machine.armed(), "resting on the edge must not capture again");
    let again = handoff_step(&step.machine, HandoffEvent::Motion { x: 1919, y: 10, injected: false }, true);
    assert!(!again.grab);
}

#[test]
fn a_release_while_local_sends_nothing() {
    let step = handoff_step(&KvmMachine::new(), HandoffEvent::EmergencyRelease, false);
    assert_eq!(step.send, None);
    assert!(!step.grab);
}

#[test]
fn grabbed_motion_is_tracked_not_sent() {
    let step = handoff_step(&remote(), HandoffEvent::Motion { x: 970, y: 545, injected: false }, false);
    assert_eq!(step.action, HandoffAction::Track { x: 970, y: 545 });
    assert_eq!(step.send, None);
    assert!(step.grab);
}

#[test]
fn grabbed_input_goes_to_the_peer_with_the_extended_prefix() {
    let m = remote();
    let key = handoff_step(&m, HandoffEvent::Key { scancode: 0x1D, extended: true, down: true }, false);
    assert_eq!(key.send, Some(IpcRequest::InjectKey { scancode: 0xE01D, down: true }));
    let plain = handoff_step(&m, HandoffEvent::Key { scancode: 0x1D, extended: false, down: false }, false);
    assert_eq!(plain.send, Some(IpcRequest::InjectKey { scancode: 0x1D, down: false }));
    let button = handoff_step(&m, HandoffEvent::Button { button: MouseButtonDto::Right, down: true }, false);
    assert_eq!(button.send, Some(IpcRequest::InjectMouseButton { button: MouseButtonDto::Right, down: true }));
}

#[test]
fn keys_and_buttons_stay_local_while_not_grabbed() {
    let m = KvmMachine::new();
    assert_eq!(handoff_step(&m, HandoffEvent::Key { scancode: 0x1E, extended: false, down: true }, false).send, None);
    assert_eq!(handoff_step(&m, HandoffEvent::Button { button: MouseButtonDto::Left, down: true }, false).send, None);
}

#[test]
fn walking_back_off_the_peer_returns_control() {
    let step = handoff_step(&remote(), HandoffEvent::ReturnedAcrossEdge, false);
    assert!(!step.grab);
    assert_eq!(step.send, Some(IpcRequest::ReleaseAllInput));
    let mut m = step.machine;
    m.on(KvmEvent::EdgeLeft);
    assert!(m.armed());
}

use std::cell::RefCell;

use ultidesk::ipc::{IpcRequest, IpcResponse, MouseButtonDto, PeerQuery, VirtualScreenDto, WindowDto};
use ultidesk::key::Identity;
use ultidesk::peers::Permissions;
use ultidesk::protocol::PROTOCOL_VERSION;
use ultidesk::session::{
    audio_unavailable, constant_time_eq, gate_for, injector_call, monitors_unavailable, CallResult, Dispatch, Gate,
    InjectorCall, InputError, Injector, Needed, Session, AGENT_VERSION,
};

#[derive(Default)]
struct MockInjector {
    events: RefCell<Vec<String>>,
    fail_blocked: bool,
}

impl Injector for MockInjector {
    fn mouse_move(&self, sx: i32, sy: i32, _vs: VirtualScreenDto) -> Result<(), InputError> {
        self.events.borrow_mut().push(format!("move {sx},{sy}"));
        Ok(())
    }
    fn mouse_button(&self, button: MouseButtonDto, down: bool) -> Result<(), InputError> {
        if self.fail_blocked {
            return Err(InputError::Blocked("the foreground window is elevated".to_string()));
        }
        self.events.borrow_mut().push(format!("btn {button:?} {down}"));
        Ok(())
    }
    fn key(&self, scancode: u16, down: bool) -> Result<(), InputError> {
        self.events.borrow_mut().push(format!("key {scancode} {down}"));
        Ok(())
    }
    fn scroll(&self, dx: i32, dy: i32) -> Result<(), InputError> {
        self.events.borrow_mut().push(format!("scroll {dx},{dy}"));
        Ok(())
    }
    fn enumerate(&self) -> Vec<WindowDto> {
        vec![]
    }
}

const TOKEN: &str = "s3cret-token";

/// What a transport does with one call: the injector method of the same name.
fn perform(inj: &MockInjector, call: &InjectorCall) -> CallResult {
    match call {
        InjectorCall::MouseMove { screen_x, screen_y, virtual_screen } => {
            CallResult::Done(inj.mouse_move(*screen_x, *screen_y, *virtual_screen))
        }
        InjectorCall::MouseButton { button, down } => CallResult::Done(inj.mouse_button(*button, *down)),
        InjectorCall::Key { scancode, down } => CallResult::Done(inj.key(*scancode, *down)),
        InjectorCall::Scroll { delta_x, delta_y } => CallResult::Done(inj.scroll(*delta_x, *delta_y)),
        InjectorCall::Enumerate => CallResult::Windows(inj.enumerate()),
    }
}

/// Dispatch a request and carry out whatever injector work it hands back.
fn handle(s: &mut Session, req: IpcRequest, inj: &MockInjector) -> IpcResponse {
    match s.dispatch(req) {
        Dispatch::Reply(r) => r,
        Dispatch::Inject(call) => {
            let res = perform(inj, &call);
            s.complete(&call, res)
        }
        Dispatch::ReleaseAll { calls, reply } => {
            for call in &calls {
                let _ = perform(inj, call);
            }
            reply
        }
        other => panic!("expected a reply, got {other:?}"),
    }
}

/// What a transport does when a connection drops: release everything, best-effort.
fn release_all(s: &mut Session, inj: &MockInjector) -> usize {
    let calls = s.release_all();
    for call in &calls {
        let _ = perform(inj, call);
    }
    calls.len()
}

fn hello(token: &str, protocol_version: u32) -> IpcRequest {
    IpcRequest::Hello { token: token.to_string(), protocol_version }
}

fn authed() -> (Session, MockInjector) {
    let mut s = Session::new(TOKEN);
    let inj = MockInjector::default();
    let r = handle(&mut s, hello(TOKEN, PROTOCOL_VERSION), &inj);
    assert!(matches!(r, IpcResponse::HelloOk { .. }));
    (s, inj)
}

fn peer_with(permissions: Permissions) -> Session {
    Session::for_authenticated_peer(permissions)
}

fn code_of(r: &IpcResponse) -> Option<&str> {
    match r {
        IpcResponse::Error { code, .. } => Some(code.as_str()),
        _ => None,
    }
}

#[test]
fn commands_before_hello_are_rejected() {
    let mut s = Session::new(TOKEN);
    let inj = MockInjector::default();
    let r = handle(&mut s, IpcRequest::Ping, &inj);
    assert!(matches!(r, IpcResponse::Error { .. }));
    assert!(!s.is_authenticated());
}

#[test]
fn a_transport_authenticated_peer_needs_no_hello() {
    let mut s = Session::for_authenticated_peer(Permissions::all());
    let inj = MockInjector::default();
    assert!(s.is_authenticated());
    assert!(matches!(handle(&mut s, IpcRequest::Ping, &inj), IpcResponse::Pong));
}

#[test]
fn a_transport_authenticated_peer_cannot_offer_a_token() {
    let mut s = Session::for_authenticated_peer(Permissions::all());
    let inj = MockInjector::default();
    let r = handle(&mut s, hello("", PROTOCOL_VERSION), &inj);
    assert!(matches!(r, IpcResponse::Error { .. }), "{r:?}");
}

#[test]
fn wrong_token_rejected() {
    let mut s = Session::new(TOKEN);
    let inj = MockInjector::default();
    let r = handle(&mut s, hello("nope", PROTOCOL_VERSION), &inj);
    assert!(matches!(r, IpcResponse::Error { .. }));
    assert!(!s.is_authenticated());
}

#[test]
fn protocol_mismatch_rejected() {
    let mut s = Session::new(TOKEN);
    let inj = MockInjector::default();
    let r = handle(&mut s, hello(TOKEN, PROTOCOL_VERSION + 100), &inj);
    assert!(matches!(r, IpcResponse::Error { code, .. } if code == "protocol_mismatch"));
}

#[test]
fn held_input_is_tracked_and_released() {
    let (mut s, inj) = authed();
    handle(&mut s, IpcRequest::InjectMouseButton { button: MouseButtonDto::Left, down: true }, &inj);
    handle(&mut s, IpcRequest::InjectKey { scancode: 0x1D, down: true }, &inj);
    assert_eq!(s.held_count(), 2);
    let r = handle(&mut s, IpcRequest::ReleaseAllInput, &inj);
    assert!(matches!(r, IpcResponse::Released { count: 2 }));
    assert_eq!(s.held_count(), 0);
    let ev = inj.events.borrow();
    assert!(ev.iter().any(|e| e == "btn Left false"));
    assert!(ev.iter().any(|e| e == "key 29 false"));
}

#[test]
fn matched_up_event_clears_held_without_release_all() {
    let (mut s, inj) = authed();
    handle(&mut s, IpcRequest::InjectKey { scancode: 0x1D, down: true }, &inj);
    assert_eq!(s.held_count(), 1);
    handle(&mut s, IpcRequest::InjectKey { scancode: 0x1D, down: false }, &inj);
    assert_eq!(s.held_count(), 0);
}

#[test]
fn blocked_injection_surfaces_error_and_is_not_marked_held() {
    let mut s = Session::new(TOKEN);
    let inj = MockInjector { fail_blocked: true, ..Default::default() };
    handle(&mut s, hello(TOKEN, PROTOCOL_VERSION), &inj);
    let r = handle(&mut s, IpcRequest::InjectMouseButton { button: MouseButtonDto::Left, down: true }, &inj);
    assert!(matches!(r, IpcResponse::Error { code, .. } if code == "input_blocked"));
    assert_eq!(s.held_count(), 0, "a blocked press must not be tracked as held");
}

#[test]
fn listing_audio_devices_needs_authentication_like_everything_else() {
    let mut s = Session::new(TOKEN);
    let inj = MockInjector::default();
    let r = handle(&mut s, IpcRequest::ListAudioDevices, &inj);
    assert!(matches!(r, IpcResponse::Error { code, .. } if code == "unauthenticated"));
}

#[test]
fn listing_devices_holds_no_input_and_releases_nothing() {
    let (mut s, inj) = authed();
    handle(&mut s, IpcRequest::InjectKey { scancode: 0x1D, down: true }, &inj);
    assert!(matches!(s.dispatch(IpcRequest::ListAudioDevices), Dispatch::ListAudioDevices));
    assert_eq!(s.held_count(), 1, "the held key must survive a query");
}

#[test]
fn a_peer_without_control_input_cannot_move_the_pointer() {
    let mut s = peer_with(Permissions { control_input: false, read_devices: true, list_windows: true });
    let inj = MockInjector::default();
    let r = handle(
        &mut s,
        IpcRequest::InjectMouseMove {
            screen_x: 10,
            screen_y: 10,
            virtual_screen: VirtualScreenDto { left: 0, top: 0, width: 1920, height: 1080 },
        },
        &inj,
    );
    match r {
        IpcResponse::Error { code, message } => {
            assert_eq!(code, "not_permitted");
            assert!(message.contains("control-input"), "{message}");
        }
        other => panic!("expected a refusal, got {other:?}"),
    }
    assert!(inj.events.borrow().is_empty(), "a refused request must not reach the injector at all");
}

#[test]
fn a_peer_without_read_devices_cannot_list_them() {
    let mut s = peer_with(Permissions { control_input: true, read_devices: false, list_windows: true });
    let inj = MockInjector::default();
    let r = handle(&mut s, IpcRequest::ListAudioDevices, &inj);
    assert_eq!(code_of(&r), Some("not_permitted"), "{r:?}");
}

#[test]
fn a_peer_without_list_windows_cannot_read_titles() {
    let mut s = peer_with(Permissions::on_pairing());
    let inj = MockInjector::default();
    let r = handle(&mut s, IpcRequest::EnumerateWindows, &inj);
    assert_eq!(code_of(&r), Some("not_permitted"), "a fresh pairing must not hand over window titles: {r:?}");
}

#[test]
fn a_peer_allowed_nothing_can_still_be_pinged() {
    let mut s = peer_with(Permissions::default());
    let inj = MockInjector::default();
    assert!(matches!(handle(&mut s, IpcRequest::Ping, &inj), IpcResponse::Pong));
}

#[test]
fn the_local_ipc_is_allowed_everything() {
    let (mut s, inj) = authed();
    assert!(!matches!(handle(&mut s, IpcRequest::EnumerateWindows, &inj), IpcResponse::Error { .. }));
}

#[test]
fn every_request_has_a_decided_permission() {
    let ungated = [IpcRequest::Ping, IpcRequest::ReleaseAllInput, hello("", PROTOCOL_VERSION)];
    for req in ungated {
        assert_eq!(gate_for(&req), Gate::Open, "{req:?} should be open");
    }
    assert_eq!(gate_for(&IpcRequest::ListAudioDevices), Gate::Permission(Needed::ReadDevices));
    assert_eq!(gate_for(&IpcRequest::ListMonitors), Gate::Permission(Needed::ReadDevices));
    assert_eq!(gate_for(&IpcRequest::EnumerateWindows), Gate::Permission(Needed::ListWindows));
    assert_eq!(
        gate_for(&IpcRequest::InjectScroll { delta_x: 0, delta_y: 120 }),
        Gate::Permission(Needed::ControlInput)
    );
    assert_eq!(
        gate_for(&IpcRequest::AskPeer { peer: Identity::generate().public(), query: PeerQuery::Monitors }),
        Gate::LocalOnly,
        "relaying is not a permission an operator can grant a peer"
    );
}

#[test]
fn a_peer_without_read_devices_cannot_list_monitors_either() {
    let mut s = peer_with(Permissions { control_input: true, read_devices: false, list_windows: true });
    let inj = MockInjector::default();
    let r = handle(&mut s, IpcRequest::ListMonitors, &inj);
    assert_eq!(code_of(&r), Some("not_permitted"), "{r:?}");
}

#[test]
fn a_peer_cannot_use_this_machine_as_a_hop_to_a_third() {
    let mut s = peer_with(Permissions::all());
    let inj = MockInjector::default();
    let third = Identity::generate().public();
    let r = handle(&mut s, IpcRequest::AskPeer { peer: third, query: PeerQuery::Monitors }, &inj);
    match r {
        IpcResponse::Error { code, .. } => assert_eq!(code, "local_only"),
        other => panic!("a peer must not be able to relay: {other:?}"),
    }
}

#[test]
fn a_local_caller_may_relay_and_the_work_is_handed_back() {
    let (mut s, inj) = authed();
    let peer = Identity::generate().public();
    match s.dispatch(IpcRequest::AskPeer { peer, query: PeerQuery::AudioDevices }) {
        Dispatch::AskPeer { peer: asked, query } => {
            assert_eq!(asked, peer);
            assert_eq!(query, PeerQuery::AudioDevices);
        }
        other => panic!("expected a relay work order, got {other:?}"),
    }
}

#[test]
fn constant_time_eq_basic() {
    assert!(constant_time_eq(b"abc", b"abc"));
    assert!(!constant_time_eq(b"abc", b"abd"));
    assert!(!constant_time_eq(b"abc", b"abcd"));
}

#[test]
fn hello_reports_the_agent_and_protocol_versions() {
    let mut s = Session::new(TOKEN);
    let inj = MockInjector::default();
    match handle(&mut s, hello(TOKEN, PROTOCOL_VERSION), &inj) {
        IpcResponse::HelloOk { agent_version, protocol_version } => {
            assert_eq!(agent_version, AGENT_VERSION);
            assert_eq!(protocol_version, PROTOCOL_VERSION);
        }
        other => panic!("expected HelloOk, got {other:?}"),
    }
    assert!(s.is_authenticated());
}

#[test]
fn the_mismatch_message_names_both_versions() {
    let mut s = Session::new(TOKEN);
    let inj = MockInjector::default();
    let r = handle(&mut s, hello(TOKEN, 42), &inj);
    assert_eq!(
        r,
        IpcResponse::Error {
            code: "protocol_mismatch".to_string(),
            message: format!("agent speaks v{PROTOCOL_VERSION}, client sent v42")
        }
    );
}

#[test]
fn a_second_hello_is_refused() {
    let (mut s, inj) = authed();
    let r = handle(&mut s, hello(TOKEN, PROTOCOL_VERSION), &inj);
    assert_eq!(code_of(&r), Some("already_authenticated"));
}

#[test]
fn releasing_on_disconnect_lets_go_of_everything_once() {
    let (mut s, inj) = authed();
    handle(&mut s, IpcRequest::InjectKey { scancode: 0x2A, down: true }, &inj);
    handle(&mut s, IpcRequest::InjectKey { scancode: 0x2A, down: true }, &inj);
    handle(&mut s, IpcRequest::InjectMouseButton { button: MouseButtonDto::Right, down: true }, &inj);
    assert_eq!(s.held_count(), 2, "a repeated press is one held key");
    assert_eq!(release_all(&mut s, &inj), 2);
    assert_eq!(release_all(&mut s, &inj), 0);
}

#[test]
fn scrolling_and_moving_hold_nothing() {
    let (mut s, inj) = authed();
    assert_eq!(handle(&mut s, IpcRequest::InjectScroll { delta_x: 0, delta_y: -120 }, &inj), IpcResponse::Injected);
    let vs = VirtualScreenDto { left: 0, top: 0, width: 1920, height: 1080 };
    assert_eq!(
        handle(&mut s, IpcRequest::InjectMouseMove { screen_x: 5, screen_y: 6, virtual_screen: vs }, &inj),
        IpcResponse::Injected
    );
    assert_eq!(s.held_count(), 0);
    assert_eq!(*inj.events.borrow(), vec!["scroll 0,-120".to_string(), "move 5,6".to_string()]);
}

#[test]
fn a_session_without_a_token_refuses_every_hello() {
    let mut s = Session::for_authenticated_peer(Permissions::default());
    let inj = MockInjector::default();
    assert!(s.is_authenticated());
    assert_eq!(code_of(&handle(&mut s, hello(TOKEN, PROTOCOL_VERSION), &inj)), Some("already_authenticated"));
}

#[test]
fn each_inject_request_is_one_call_with_its_own_arguments() {
    let vs = VirtualScreenDto { left: 0, top: 0, width: 1920, height: 1080 };
    assert_eq!(
        injector_call(&IpcRequest::InjectMouseMove { screen_x: 3, screen_y: 4, virtual_screen: vs }),
        Some(InjectorCall::MouseMove { screen_x: 3, screen_y: 4, virtual_screen: vs })
    );
    assert_eq!(
        injector_call(&IpcRequest::InjectKey { scancode: 0x1D, down: false }),
        Some(InjectorCall::Key { scancode: 0x1D, down: false })
    );
    assert_eq!(injector_call(&IpcRequest::EnumerateWindows), Some(InjectorCall::Enumerate));
    assert_eq!(injector_call(&IpcRequest::Ping), None);
    assert_eq!(injector_call(&IpcRequest::ReleaseAllInput), None);
}

#[test]
fn a_call_is_settled_by_what_it_returned() {
    let (mut s, _inj) = authed();
    let press = InjectorCall::Key { scancode: 0x2A, down: true };
    assert_eq!(s.complete(&press, CallResult::Done(Ok(()))), IpcResponse::Injected);
    assert_eq!(s.held_count(), 1);
    let release = InjectorCall::Key { scancode: 0x2A, down: false };
    assert_eq!(
        s.complete(&release, CallResult::Done(Err(InputError::Os("device gone".to_string())))),
        IpcResponse::Error { code: "input_os_error".to_string(), message: "device gone".to_string() }
    );
    assert_eq!(s.held_count(), 1, "a failed release leaves the key held");
    let w = WindowDto { hwnd: 7, title: "t".to_string(), process_id: 1, left: 0, top: 0, right: 1, bottom: 1 };
    assert_eq!(
        s.complete(&InjectorCall::Enumerate, CallResult::Windows(vec![w.clone()])),
        IpcResponse::Windows { windows: vec![w] }
    );
}

#[test]
fn release_calls_let_go_of_each_held_key_and_button_once() {
    let (mut s, inj) = authed();
    handle(&mut s, IpcRequest::InjectKey { scancode: 0x1D, down: true }, &inj);
    handle(&mut s, IpcRequest::InjectMouseButton { button: MouseButtonDto::Middle, down: true }, &inj);
    let calls = s.release_calls();
    assert_eq!(calls.len(), 2);
    assert!(calls.contains(&InjectorCall::Key { scancode: 0x1D, down: false }));
    assert!(calls.contains(&InjectorCall::MouseButton { button: MouseButtonDto::Middle, down: false }));
}

#[test]
fn a_failing_release_does_not_stop_the_rest() {
    let mut s = Session::new(TOKEN);
    let ok = MockInjector::default();
    handle(&mut s, hello(TOKEN, PROTOCOL_VERSION), &ok);
    handle(&mut s, IpcRequest::InjectMouseButton { button: MouseButtonDto::Left, down: true }, &ok);
    handle(&mut s, IpcRequest::InjectKey { scancode: 0x38, down: true }, &ok);
    let failing = MockInjector { fail_blocked: true, ..Default::default() };
    assert_eq!(release_all(&mut s, &failing), 2);
    assert_eq!(s.held_count(), 0);
    assert_eq!(*failing.events.borrow(), vec!["key 56 false".to_string()]);
}

#[test]
fn an_unreadable_inventory_says_which() {
    assert_eq!(
        audio_unavailable("could not reach the PipeWire daemon"),
        IpcResponse::Error {
            code: "audio_unavailable".to_string(),
            message: "could not reach the PipeWire daemon".to_string()
        }
    );
    assert_eq!(
        monitors_unavailable("could not connect to the Wayland compositor"),
        IpcResponse::Error {
            code: "monitors_unavailable".to_string(),
            message: "could not connect to the Wayland compositor".to_string()
        }
    );
}

#[test]
fn a_refused_request_never_reaches_the_injector() {
    let mut s = Session::new(TOKEN);
    let inj = MockInjector::default();
    handle(&mut s, IpcRequest::InjectKey { scancode: 0x1E, down: true }, &inj);
    handle(&mut s, hello("wrong", PROTOCOL_VERSION), &inj);
    let mut p = peer_with(Permissions::default());
    handle(&mut p, IpcRequest::InjectScroll { delta_x: 0, delta_y: 120 }, &inj);
    assert!(inj.events.borrow().is_empty());
}

#[test]
fn an_injection_is_handed_back_as_its_call_and_held_only_once_settled() {
    let (mut s, _inj) = authed();
    let req = IpcRequest::InjectMouseButton { button: MouseButtonDto::Left, down: true };
    let call = match s.dispatch(req) {
        Dispatch::Inject(call) => call,
        other => panic!("expected an injector call, got {other:?}"),
    };
    assert_eq!(call, InjectorCall::MouseButton { button: MouseButtonDto::Left, down: true });
    assert_eq!(s.held_count(), 0, "nothing is held before the call is settled");
    assert_eq!(s.complete(&call, CallResult::Done(Ok(()))), IpcResponse::Injected);
    assert_eq!(s.held_count(), 1);
}

#[test]
fn release_all_input_hands_back_the_release_calls_and_their_count() {
    let (mut s, inj) = authed();
    handle(&mut s, IpcRequest::InjectKey { scancode: 0x1D, down: true }, &inj);
    match s.dispatch(IpcRequest::ReleaseAllInput) {
        Dispatch::ReleaseAll { calls, reply } => {
            assert_eq!(calls, vec![InjectorCall::Key { scancode: 0x1D, down: false }]);
            assert_eq!(reply, IpcResponse::Released { count: 1 });
        }
        other => panic!("expected release work, got {other:?}"),
    }
    assert_eq!(s.held_count(), 0);
}

#[test]
fn unequal_lengths_compare_unequal_in_either_order() {
    assert!(!constant_time_eq(b"abcd", b"abc"));
    assert!(!constant_time_eq(b"", b"a"));
    assert!(constant_time_eq(b"", b""));
}

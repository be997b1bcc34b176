use ultidesk::forward::{
    button_dto, is_emergency_release, CapturedInput, DropReason, Forwarded, Forwarder, PointerStep, KEY_ESC,
};
use ultidesk::ipc::{IpcRequest, MouseButtonDto, VirtualScreenDto};
use ultidesk::scroll::WheelDelta;

fn vs() -> VirtualScreenDto {
    VirtualScreenDto { left: 0, top: 0, width: 1920, height: 1080 }
}

fn forwarder() -> Forwarder {
    Forwarder::new(vs())
}

#[test]
fn a_move_places_the_peer_pointer_on_its_desktop() {
    let f = forwarder();
    assert_eq!(
        f.move_to(0, 540),
        IpcRequest::InjectMouseMove { screen_x: 0, screen_y: 540, virtual_screen: vs() }
    );
}

#[test]
fn a_resolved_position_is_sent_as_an_absolute_move() {
    let mut f = forwarder();
    assert_eq!(
        f.translate(CapturedInput::PointerMotion(PointerStep::Moved { x: 100, y: 540 })),
        Forwarded::Send(IpcRequest::InjectMouseMove { screen_x: 100, screen_y: 540, virtual_screen: vs() })
    );
}

#[test]
fn crossing_back_home_ends_forwarding_without_a_drop() {
    let mut f = forwarder();
    assert_eq!(f.translate(CapturedInput::PointerMotion(PointerStep::ReturnedHome)), Forwarded::ReturnHome);
    assert_eq!(f.dropped(), 0);
}

#[test]
fn letters_translate_through_the_identity_range() {
    let mut f = forwarder();
    assert_eq!(
        f.translate(CapturedInput::Key { keycode: 30, pressed: true }),
        Forwarded::Send(IpcRequest::InjectKey { scancode: 0x1E, down: true })
    );
}

#[test]
fn extended_keys_keep_their_prefix_bit() {
    let mut f = forwarder();
    assert_eq!(
        f.translate(CapturedInput::Key { keycode: 97, pressed: true }),
        Forwarded::Send(IpcRequest::InjectKey { scancode: 0xE01D, down: true })
    );
}

#[test]
fn an_unmapped_key_is_dropped_and_counted_not_approximated() {
    let mut f = forwarder();
    assert_eq!(
        f.translate(CapturedInput::Key { keycode: 190, pressed: true }),
        Forwarded::Dropped(DropReason::UnmappedKey(190))
    );
    assert_eq!(f.dropped(), 1);
}

#[test]
fn mouse_buttons_use_evdev_numbering() {
    let mut f = forwarder();
    assert_eq!(
        f.translate(CapturedInput::Button { button: 0x110, pressed: true }),
        Forwarded::Send(IpcRequest::InjectMouseButton { button: MouseButtonDto::Left, down: true })
    );
    assert!(matches!(
        f.translate(CapturedInput::Button { button: 1, pressed: true }),
        Forwarded::Dropped(DropReason::UnmappedButton(1))
    ));
}

#[test]
fn side_buttons_are_dropped_rather_than_folded_onto_a_real_button() {
    let mut f = forwarder();
    assert_eq!(
        f.translate(CapturedInput::Button { button: 0x113, pressed: true }),
        Forwarded::Dropped(DropReason::UnmappedButton(0x113))
    );
}

#[test]
fn a_scroll_under_one_notch_sends_nothing_yet() {
    let mut f = forwarder();
    assert_eq!(f.translate(CapturedInput::Scroll(WheelDelta { x: 0, y: 0 })), Forwarded::Pending);
}

#[test]
fn a_whole_notch_is_sent_as_it_is() {
    let mut f = forwarder();
    assert_eq!(
        f.translate(CapturedInput::Scroll(WheelDelta { x: 0, y: -120 })),
        Forwarded::Send(IpcRequest::InjectScroll { delta_x: 0, delta_y: -120 })
    );
}

#[test]
fn absolute_motion_is_dropped_and_counted_so_it_is_visible_if_it_ever_happens() {
    let mut f = forwarder();
    assert_eq!(f.translate(CapturedInput::PointerMotionAbsolute), Forwarded::Dropped(DropReason::AbsoluteMotion));
    assert_eq!(f.dropped(), 1);
}

#[test]
fn only_drops_are_counted() {
    let mut f = forwarder();
    f.translate(CapturedInput::Key { keycode: 30, pressed: false });
    f.translate(CapturedInput::Key { keycode: 190, pressed: false });
    f.translate(CapturedInput::Button { button: 0x114, pressed: false });
    f.translate(CapturedInput::Scroll(WheelDelta { x: 120, y: 0 }));
    assert_eq!(f.dropped(), 2);
}

#[test]
fn the_three_buttons_have_wire_names() {
    assert_eq!(button_dto(0x110), Some(MouseButtonDto::Left));
    assert_eq!(button_dto(0x111), Some(MouseButtonDto::Right));
    assert_eq!(button_dto(0x112), Some(MouseButtonDto::Middle));
    assert_eq!(button_dto(0x113), None);
}

#[test]
fn letting_go_of_esc_is_the_emergency_release() {
    assert!(is_emergency_release(&CapturedInput::Key { keycode: KEY_ESC, pressed: false }));
    assert!(!is_emergency_release(&CapturedInput::Key { keycode: KEY_ESC, pressed: true }));
    assert!(!is_emergency_release(&CapturedInput::Key { keycode: 30, pressed: false }));
    assert!(!is_emergency_release(&CapturedInput::PointerMotionAbsolute));
}

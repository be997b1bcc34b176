//! Turning captured Linux input into wire messages for a Windows peer.
//!
//! libei hands over evdev keycodes, evdev button codes and continuous pointer and
//! scroll deltas; the wire carries PS/2 set-1 scancodes, three named buttons, absolute
//! screen positions and whole wheel notches. The continuous halves (where the pointer
//! now is on the peer, how many whole notches a run of scroll deltas makes) are worked
//! out in floating point before an event reaches [`Forwarder::translate`]; what this
//! module decides is what each event becomes on the wire.
//!
//! Nothing is guessed: a key or button with no mapping is dropped and counted, never
//! approximated, because a plausible substitute types or clicks something the operator
//! never did.

use vstd::prelude::*;

use crate::ipc::{IpcRequest, MouseButtonDto, VirtualScreenDto};
use crate::keymap::{
    evdev_button_index, evdev_to_scancode, evdev_to_scancode_spec, lemma_evdev_round_trip, scancode_to_evdev_spec, BTN_LEFT,
    BTN_MIDDLE, BTN_RIGHT,
};
use crate::scroll::WheelDelta;

verus! {

/// Why an event produced nothing to send.
#[derive(Debug, Clone, Copy, PartialEq, Eq, Structural)]
pub enum DropReason {
    /// An evdev keycode outside the set the keymap can translate.
    UnmappedKey(u32),
    /// A button beyond left, right and middle.
    UnmappedButton(u32),
    /// Absolute pointer motion, which is in the source's coordinate space and so
    /// cannot be forwarded as it is.
    AbsoluteMotion,
}

/// What to do with one captured event.
#[derive(Debug, Clone, PartialEq, Eq)]
pub enum Forwarded {
    /// Send this to the peer.
    Send(IpcRequest),
    /// Consumed, with nothing to send yet: a scroll delta still under one notch.
    Pending,
    /// Could not be represented on the wire.
    Dropped(DropReason),
    /// The pointer left the peer through the edge it arrived by: stop forwarding,
    /// release the grab, and discard any partial scroll notch.
    ReturnHome,
}

/// Where relative motion left the pointer on the peer's screen.
#[derive(Debug, Clone, Copy, PartialEq, Eq, Structural)]
pub enum PointerStep {
    /// Still on the peer, at this position in the peer's coordinates.
    Moved { x: i32, y: i32 },
    /// Crossed back out through the entry edge.
    ReturnedHome,
}

/// One captured input event, with its continuous parts already resolved.
#[derive(Debug, Clone, Copy, PartialEq, Eq, Structural)]
pub enum CapturedInput {
    /// Relative motion, as the pointer on the peer came out of it.
    PointerMotion(PointerStep),
    /// Absolute motion in the source's own coordinates.
    PointerMotionAbsolute,
    Button { button: u32, pressed: bool },
    /// Scrolling, as the whole notches it completed (zero while under one notch).
    Scroll(WheelDelta),
    Key { keycode: u32, pressed: bool },
}

/// The evdev keycode for Esc; libei reports evdev codes, not keysyms.
pub const KEY_ESC: u32 = 1;

/// Whether an event is the operator letting go of Esc, which always ends capture and
/// releases input, before anything else is made of the event.
pub fn is_emergency_release(event: &CapturedInput) -> (r: bool)
    ensures
        r == (event matches CapturedInput::Key { keycode, pressed } && keycode == KEY_ESC && pressed == false),
{
    match event {
        CapturedInput::Key { keycode, pressed } => *keycode == KEY_ESC && !*pressed,
        _ => false,
    }
}

/// The wire's name for an evdev button code.
pub open spec fn button_spec(button: u32) -> Option<MouseButtonDto> {
    if button == BTN_LEFT {
        Some(MouseButtonDto::Left)
    } else if button == BTN_RIGHT {
        Some(MouseButtonDto::Right)
    } else if button == BTN_MIDDLE {
        Some(MouseButtonDto::Middle)
    } else {
        None
    }
}

/// What one event becomes, for a forwarder onto the desktop `vs`.
pub open spec fn translate_spec(vs: VirtualScreenDto, event: CapturedInput) -> Forwarded {
    match event {
        CapturedInput::PointerMotion(PointerStep::ReturnedHome) => Forwarded::ReturnHome,
        CapturedInput::PointerMotion(PointerStep::Moved { x, y }) => Forwarded::Send(
            IpcRequest::InjectMouseMove { screen_x: x, screen_y: y, virtual_screen: vs },
        ),
        CapturedInput::PointerMotionAbsolute => Forwarded::Dropped(DropReason::AbsoluteMotion),
        CapturedInput::Button { button, pressed } => match button_spec(button) {
            Some(b) => Forwarded::Send(IpcRequest::InjectMouseButton { button: b, down: pressed }),
            None => Forwarded::Dropped(DropReason::UnmappedButton(button)),
        },
        CapturedInput::Key { keycode, pressed } => match evdev_to_scancode_spec(keycode as i32) {
            Some(s) => Forwarded::Send(IpcRequest::InjectKey { scancode: s, down: pressed }),
            None => Forwarded::Dropped(DropReason::UnmappedKey(keycode)),
        },
        CapturedInput::Scroll(d) => if d.x == 0 && d.y == 0 {
            Forwarded::Pending
        } else {
            Forwarded::Send(IpcRequest::InjectScroll { delta_x: d.x, delta_y: d.y })
        },
    }
}

/// evdev button code to the wire's three-button enum.
pub fn button_dto(button: u32) -> (r: Option<MouseButtonDto>)
    ensures
        r == button_spec(button),
{
    match evdev_button_index(button) {
        Some(0) => Some(MouseButtonDto::Left),
        Some(1) => Some(MouseButtonDto::Right),
        Some(2) => Some(MouseButtonDto::Middle),
        _ => None,
    }
}

/// Converts captured events into wire messages for one peer screen.
pub struct Forwarder {
    virtual_screen: VirtualScreenDto,
    dropped: u64,
}

impl Forwarder {
    /// The peer's whole virtual desktop this forwarder places the pointer on.
    pub closed spec fn screen(&self) -> VirtualScreenDto {
        self.virtual_screen
    }

    /// How many events could not be represented so far.
    pub closed spec fn dropped_count(&self) -> nat {
        self.dropped as nat
    }

    /// Start forwarding onto the peer whose full virtual desktop is `virtual_screen`.
    pub fn new(virtual_screen: VirtualScreenDto) -> (r: Self)
        ensures
            r.screen() == virtual_screen,
            r.dropped_count() == 0,
    {
        Forwarder { virtual_screen, dropped: 0 }
    }

    /// How many events could not be represented.
    pub fn dropped(&self) -> (r: u64)
        ensures
            r == self.dropped_count(),
    {
        self.dropped
    }

    /// The message that places the peer's pointer at `(x, y)` on its desktop.
    pub fn move_to(&self, x: i32, y: i32) -> (r: IpcRequest)
        ensures
            r == (IpcRequest::InjectMouseMove { screen_x: x, screen_y: y, virtual_screen: self.screen() }),
    {
        IpcRequest::InjectMouseMove { screen_x: x, screen_y: y, virtual_screen: self.virtual_screen }
    }

    /// What one captured event becomes. Every event that comes back `Dropped` is
    /// counted, and no other is.
    pub fn translate(&mut self, event: CapturedInput) -> (r: Forwarded)
        requires
            old(self).dropped_count() < u64::MAX,
        ensures
            r == translate_spec(old(self).screen(), event),
            final(self).screen() == old(self).screen(),
            final(self).dropped_count() == old(self).dropped_count() + (if r is Dropped { 1int } else { 0int }),
    {
        match event {
            CapturedInput::PointerMotion(PointerStep::ReturnedHome) => Forwarded::ReturnHome,
            CapturedInput::PointerMotion(PointerStep::Moved { x, y }) => Forwarded::Send(
                self.move_to(x, y),
            ),
            CapturedInput::PointerMotionAbsolute => {
                self.dropped = self.dropped + 1;
                Forwarded::Dropped(DropReason::AbsoluteMotion)
            },
            CapturedInput::Button { button, pressed } => match button_dto(button) {
                Some(b) => Forwarded::Send(IpcRequest::InjectMouseButton { button: b, down: pressed }),
                None => {
                    self.dropped = self.dropped + 1;
                    Forwarded::Dropped(DropReason::UnmappedButton(button))
                },
            },
            CapturedInput::Key { keycode, pressed } => match evdev_to_scancode(keycode as i32) {
                Some(scancode) => Forwarded::Send(IpcRequest::InjectKey { scancode, down: pressed }),
                None => {
                    self.dropped = self.dropped + 1;
                    Forwarded::Dropped(DropReason::UnmappedKey(keycode))
                },
            },
            CapturedInput::Scroll(delta) => {
                if delta.is_zero() {
                    Forwarded::Pending
                } else {
                    Forwarded::Send(IpcRequest::InjectScroll { delta_x: delta.x, delta_y: delta.y })
                }
            },
        }
    }
}

/// Only an event that cannot be represented is counted, and an event that can is
/// never dropped: keys in the translatable set and the three buttons always go out.
pub proof fn lemma_nothing_representable_is_dropped(vs: VirtualScreenDto, event: CapturedInput)
    ensures
        (event matches CapturedInput::Key { keycode, .. } && evdev_to_scancode_spec(keycode as i32) is Some)
            ==> translate_spec(vs, event) is Send,
        (event matches CapturedInput::Button { button, .. } && button_spec(button) is Some)
            ==> translate_spec(vs, event) is Send,
        translate_spec(vs, event) is Dropped ==> (
            event is PointerMotionAbsolute
            || (event matches CapturedInput::Key { keycode, .. } && evdev_to_scancode_spec(keycode as i32) is None)
            || (event matches CapturedInput::Button { button, .. } && button_spec(button) is None)
        ),
{
}


/// A key or button goes out in the direction it went: a press as a press and a release
/// as a release, for the same key or button. The scancode sent for a key is one that
/// names that same key again, and the button sent is the one the evdev code names.
pub proof fn lemma_direction_and_identity_are_kept(vs: VirtualScreenDto, keycode: u32, button: u32, pressed: bool)
    ensures
        translate_spec(vs, CapturedInput::Key { keycode, pressed }) matches Forwarded::Send(req) ==> (req matches IpcRequest::InjectKey {
            scancode,
            down,
        } && down == pressed && scancode_to_evdev_spec(scancode) == Some(keycode as i32)),
        translate_spec(vs, CapturedInput::Button { button, pressed }) matches Forwarded::Send(req) ==> (req matches IpcRequest::InjectMouseButton {
            button: b,
            down,
        } && down == pressed && (button == BTN_LEFT ==> b == MouseButtonDto::Left) && (button == BTN_RIGHT
            ==> b == MouseButtonDto::Right) && (button == BTN_MIDDLE ==> b == MouseButtonDto::Middle)),
        translate_spec(vs, CapturedInput::Key { keycode, pressed: true }) matches Forwarded::Send(IpcRequest::InjectKey {
            scancode,
            ..
        }) ==> translate_spec(vs, CapturedInput::Key { keycode, pressed: false }) == Forwarded::Send(
            IpcRequest::InjectKey { scancode, down: false },
        ),
{
    lemma_evdev_round_trip(keycode as i32);
}


/// Motion and scrolling go out unchanged: a pointer position on the peer is placed at
/// exactly that position on the forwarder's desktop, walking back out returns home, a
/// completed scroll goes out with its own notches, and a scroll still under one notch
/// sends nothing and is not counted as dropped; absolute motion is dropped.
pub proof fn lemma_motion_and_scroll_are_kept(vs: VirtualScreenDto, x: i32, y: i32, d: WheelDelta)
    ensures
        translate_spec(vs, CapturedInput::PointerMotion(PointerStep::Moved { x, y })) == Forwarded::Send(
            IpcRequest::InjectMouseMove { screen_x: x, screen_y: y, virtual_screen: vs },
        ),
        translate_spec(vs, CapturedInput::PointerMotion(PointerStep::ReturnedHome)) == Forwarded::ReturnHome,
        translate_spec(vs, CapturedInput::PointerMotionAbsolute) == Forwarded::Dropped(DropReason::AbsoluteMotion),
        (d.x != 0 || d.y != 0) ==> translate_spec(vs, CapturedInput::Scroll(d)) == Forwarded::Send(
            IpcRequest::InjectScroll { delta_x: d.x, delta_y: d.y },
        ),
        (d.x == 0 && d.y == 0) ==> translate_spec(vs, CapturedInput::Scroll(d)) == Forwarded::Pending,
{
}

} // verus!

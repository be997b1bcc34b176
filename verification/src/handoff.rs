//! The decisions of a KVM handoff on the source machine: what each captured hook event
//! does to the KVM machine, what is sent to the peer, and what the caller must do with
//! the cursor.
//!
//! The caller runs the loop: it installs the hooks, warps the cursor, tracks the
//! pointer's position on the peer (in floating point, which stays with the caller), talks
//! to the peer, and holds the grab flag the hooks read. Every transition goes through
//! [`KvmMachine`], and the grab flag is derived from it, never tracked separately.

use vstd::prelude::*;

use crate::ipc::{IpcRequest, MouseButtonDto};
use crate::keymap::EXTENDED;
use crate::kvm::{kvm_step, KvmEvent, KvmMachine, KvmOutcome, KvmState, KvmView};

verus! {

/// One event of a handoff, as the input hooks and the caller's pointer tracking report it.
#[derive(Debug, Clone, Copy, PartialEq, Eq, Structural)]
pub enum HandoffEvent {
    /// The cursor moved to `(x, y)`; `injected` marks the caller's own warp coming back
    /// through the hook.
    Motion { x: i32, y: i32, injected: bool },
    Button { button: MouseButtonDto, down: bool },
    /// A set-1 scancode, `extended` when it arrived with an `0xE0` prefix.
    Key { scancode: u16, extended: bool, down: bool },
    /// The release combination, from the hook or the registered hotkey.
    EmergencyRelease,
    /// The caller's tracked pointer walked back off the peer through the entry edge.
    ReturnedAcrossEdge,
}

/// What the caller must do with the cursor after a step.
#[derive(Debug, Clone, Copy, PartialEq, Eq, Structural)]
pub enum HandoffAction {
    Nothing,
    /// Control was just handed over: start the peer's pointer at the entry edge and warp
    /// the cursor to its anchor.
    Capture,
    /// The cursor moved to `(x, y)` while grabbed: warp it back to the anchor, move the
    /// peer's pointer by the difference, send the new position, and report
    /// [`HandoffEvent::ReturnedAcrossEdge`] if that walked it back off the peer.
    Track { x: i32, y: i32 },
}

/// The result of one handoff step.
#[derive(Debug)]
pub struct HandoffStep {
    /// The KVM machine after the event.
    pub machine: KvmMachine,
    /// The request to send to the peer, if any.
    pub send: Option<IpcRequest>,
    /// Whether local input is now grabbed: the machine has control remote.
    pub grab: bool,
    pub action: HandoffAction,
}

/// The scancode a key travels as: the extended prefix becomes the `EXTENDED` bits.
pub open spec fn wire_scancode(scancode: u16, extended: bool) -> u16 {
    if extended {
        scancode | EXTENDED
    } else {
        scancode
    }
}

/// A release event fed to the machine; the peer is told to let go of everything only
/// when control actually came back.
pub open spec fn release_spec(m: KvmView, e: KvmEvent) -> (KvmView, Option<IpcRequest>, HandoffAction) {
    let (next, out) = kvm_step(m, e);
    (next, if out is Released { Some(IpcRequest::ReleaseAllInput) } else { None }, HandoffAction::Nothing)
}

/// What one event does: releases first, whatever the state; injected motion never counts;
/// while local only edge contact matters; while remote input goes to the peer.
pub open spec fn handoff_spec(m: KvmView, ev: HandoffEvent, at_edge: bool) -> (
    KvmView,
    Option<IpcRequest>,
    HandoffAction,
) {
    match ev {
        HandoffEvent::EmergencyRelease => release_spec(m, KvmEvent::EmergencyRelease),
        HandoffEvent::ReturnedAcrossEdge => release_spec(m, KvmEvent::ReturnedAcrossEdge),
        HandoffEvent::Motion { x, y, injected } => if injected {
            (m, None, HandoffAction::Nothing)
        } else if m.state == KvmState::Local {
            let (next, out) = kvm_step(m, if at_edge { KvmEvent::EdgeReached } else { KvmEvent::EdgeLeft });
            (next, None, if out == KvmOutcome::Captured { HandoffAction::Capture } else { HandoffAction::Nothing })
        } else {
            (m, None, HandoffAction::Track { x, y })
        },
        HandoffEvent::Button { button, down } => if m.state == KvmState::Local {
            (m, None, HandoffAction::Nothing)
        } else {
            (m, Some(IpcRequest::InjectMouseButton { button, down }), HandoffAction::Nothing)
        },
        HandoffEvent::Key { scancode, extended, down } => if m.state == KvmState::Local {
            (m, None, HandoffAction::Nothing)
        } else {
            (
                m,
                Some(IpcRequest::InjectKey { scancode: wire_scancode(scancode, extended), down }),
                HandoffAction::Nothing,
            )
        },
    }
}

fn release_step(m: &KvmMachine, e: KvmEvent) -> (r: HandoffStep)
    requires
        e == KvmEvent::EmergencyRelease || e == KvmEvent::ReturnedAcrossEdge,
    ensures
        (r.machine@, r.send, r.action) == release_spec(m@, e),
        r.grab == (r.machine@.state == KvmState::Remote),
{
    let mut machine = *m;
    let out = machine.on(e);
    let send = match out {
        KvmOutcome::Released(_) => Some(IpcRequest::ReleaseAllInput),
        _ => None,
    };
    HandoffStep { machine, send, grab: machine.grab_active(), action: HandoffAction::Nothing }
}

/// One step of a handoff: the event `ev` against the machine `m`, where `at_edge` says
/// whether a motion's position touches the edge control crosses at.
pub fn handoff_step(m: &KvmMachine, ev: HandoffEvent, at_edge: bool) -> (r: HandoffStep)
    ensures
        (r.machine@, r.send, r.action) == handoff_spec(m@, ev, at_edge),
        r.grab == (r.machine@.state == KvmState::Remote),
{
    let grabbed = m.grab_active();
    match ev {
        HandoffEvent::EmergencyRelease => release_step(m, KvmEvent::EmergencyRelease),
        HandoffEvent::ReturnedAcrossEdge => release_step(m, KvmEvent::ReturnedAcrossEdge),
        HandoffEvent::Motion { x, y, injected } => {
            if injected {
                HandoffStep { machine: *m, send: None, grab: grabbed, action: HandoffAction::Nothing }
            } else if !grabbed {
                let mut machine = *m;
                let edge = if at_edge { KvmEvent::EdgeReached } else { KvmEvent::EdgeLeft };
                let out = machine.on(edge);
                let action = match out {
                    KvmOutcome::Captured => HandoffAction::Capture,
                    _ => HandoffAction::Nothing,
                };
                HandoffStep { machine, send: None, grab: machine.grab_active(), action }
            } else {
                HandoffStep { machine: *m, send: None, grab: grabbed, action: HandoffAction::Track { x, y } }
            }
        },
        HandoffEvent::Button { button, down } => {
            if !grabbed {
                HandoffStep { machine: *m, send: None, grab: grabbed, action: HandoffAction::Nothing }
            } else {
                HandoffStep {
                    machine: *m,
                    send: Some(IpcRequest::InjectMouseButton { button, down }),
                    grab: grabbed,
                    action: HandoffAction::Nothing,
                }
            }
        },
        HandoffEvent::Key { scancode, extended, down } => {
            if !grabbed {
                HandoffStep { machine: *m, send: None, grab: grabbed, action: HandoffAction::Nothing }
            } else {
                let wire = if extended { scancode | EXTENDED } else { scancode };
                HandoffStep {
                    machine: *m,
                    send: Some(IpcRequest::InjectKey { scancode: wire, down }),
                    grab: grabbed,
                    action: HandoffAction::Nothing,
                }
            }
        },
    }
}

/// The release combination always ends the grab, in whatever state it arrives, and the
/// peer is told to let go exactly when control was remote.
pub proof fn lemma_release_takes_precedence(m: KvmView, at_edge: bool)
    ensures
        handoff_spec(m, HandoffEvent::EmergencyRelease, at_edge).0.state == KvmState::Local,
        handoff_spec(m, HandoffEvent::EmergencyRelease, at_edge).1 == (if m.state == KvmState::Remote {
            Some(IpcRequest::ReleaseAllInput)
        } else {
            None
        }),
{
}

/// The caller's own cursor warps, seen again by the hook, change nothing and send
/// nothing.
pub proof fn lemma_injected_motion_is_ignored(m: KvmView, x: i32, y: i32, at_edge: bool)
    ensures
        handoff_spec(m, HandoffEvent::Motion { x, y, injected: true }, at_edge) == (m, None::<IpcRequest>, HandoffAction::Nothing),
{
}

/// Nothing reaches the peer unless control is remote, and control moves to the peer only
/// on edge contact.
pub proof fn lemma_nothing_is_sent_while_local(m: KvmView, ev: HandoffEvent, at_edge: bool)
    requires
        m.state == KvmState::Local,
    ensures
        handoff_spec(m, ev, at_edge).1 is None,
        handoff_spec(m, ev, at_edge).0.state == KvmState::Remote ==> (ev matches HandoffEvent::Motion { injected, .. }
            && !injected && at_edge),
{
}

/// An extended key keeps its prefix on the wire, so right control never arrives as left
/// control.
pub proof fn lemma_extended_keys_keep_the_prefix(scancode: u16)
    ensures
        wire_scancode(scancode, true) & EXTENDED == EXTENDED,
        wire_scancode(scancode, false) == scancode,
{
    assert((scancode | 0xE000u16) & 0xE000u16 == 0xE000u16) by (bit_vector);
}


/// While control is remote, every key and button event reaches the peer as itself: the
/// same button or key, pressed or released as it was, and the machine stays remote. The
/// extended prefix travels as the `EXTENDED` bits of the scancode.
pub proof fn lemma_remote_input_reaches_the_peer_as_is(
    m: KvmView,
    button: MouseButtonDto,
    scancode: u16,
    extended: bool,
    down: bool,
    at_edge: bool,
)
    requires
        m.state == KvmState::Remote,
    ensures
        handoff_spec(m, HandoffEvent::Button { button, down }, at_edge) == (
            m,
            Some(IpcRequest::InjectMouseButton { button, down }),
            HandoffAction::Nothing,
        ),
        handoff_spec(m, HandoffEvent::Key { scancode, extended, down }, at_edge).0 == m,
        handoff_spec(m, HandoffEvent::Key { scancode, extended, down }, at_edge).1 matches Some(req) && req matches IpcRequest::InjectKey {
            scancode: sent,
            down: d,
        } && d == down && sent == (if extended {
            scancode | 0xE000u16
        } else {
            scancode
        }),
{
}


/// Pointer motion does what its state calls for: while remote it is tracked at its own
/// position and nothing changes or is sent directly; while local and armed, touching
/// the edge hands control over and leaving it does not; and walking back across the
/// edge while remote returns control and tells the peer to let go of everything.
pub proof fn lemma_motion_and_return(m: KvmView, x: i32, y: i32, at_edge: bool)
    ensures
        m.state == KvmState::Remote ==> handoff_spec(m, HandoffEvent::Motion { x, y, injected: false }, at_edge) == (
            m,
            None::<IpcRequest>,
            HandoffAction::Track { x, y },
        ),
        m.state == KvmState::Local && m.armed && at_edge ==> handoff_spec(
            m,
            HandoffEvent::Motion { x, y, injected: false },
            at_edge,
        ) == (KvmView { state: KvmState::Remote, armed: true }, None::<IpcRequest>, HandoffAction::Capture),
        m.state == KvmState::Local && !at_edge ==> handoff_spec(m, HandoffEvent::Motion { x, y, injected: false }, at_edge)
            == (KvmView { state: KvmState::Local, armed: true }, None::<IpcRequest>, HandoffAction::Nothing),
        m.state == KvmState::Remote ==> handoff_spec(m, HandoffEvent::ReturnedAcrossEdge, at_edge).0.state
            == KvmState::Local && handoff_spec(m, HandoffEvent::ReturnedAcrossEdge, at_edge).1 == Some(
            IpcRequest::ReleaseAllInput,
        ),
{
}

} // verus!

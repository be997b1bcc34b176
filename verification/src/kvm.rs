//! The KVM handoff state machine.
//!
//! Two invariants are the reason this exists: release is unconditional (an emergency
//! release, a lost peer or a peer that ended the session returns to `Local` from any
//! state), and release sticks (crossing stays disarmed until the pointer leaves the
//! edge, so a pointer resting on the edge cannot undo a release).

use vstd::prelude::*;

verus! {

/// Where input is currently going.
#[derive(Debug, Clone, Copy, PartialEq, Eq, Structural)]
pub enum KvmState {
    /// Input drives this machine. Nothing is grabbed.
    Local,
    /// Input is grabbed and forwarded to the peer.
    Remote,
}

/// Why control returned to the local machine.
#[derive(Debug, Clone, Copy, PartialEq, Eq, Structural)]
pub enum ReleaseReason {
    EmergencyHotkey,
    PeerLost,
    PeerEnded,
    ReturnedAcrossEdge,
}

#[derive(Debug, Clone, Copy, PartialEq, Eq, Structural)]
pub enum KvmEvent {
    /// The pointer reached the edge configured as the crossing point.
    EdgeReached,
    /// The pointer moved off the crossing edge.
    EdgeLeft,
    /// The operator hit the emergency release hotkey.
    EmergencyRelease,
    /// The peer link dropped unexpectedly.
    PeerLost,
    /// The peer ended the session cleanly.
    PeerEnded,
    /// The peer reports the pointer left its far edge, coming back to us.
    ReturnedAcrossEdge,
}

/// The outcome of feeding an event to the machine.
#[derive(Debug, Clone, Copy, PartialEq, Eq, Structural)]
pub enum KvmOutcome {
    /// Nothing changed.
    Unchanged,
    /// Control moved to the peer; the caller should start grabbing input.
    Captured,
    /// Control came back; the caller must stop grabbing and release held keys.
    Released(ReleaseReason),
}

#[derive(Debug, Clone, Copy)]
pub struct KvmMachine {
    state: KvmState,
    /// Whether edge contact may start a capture. Cleared on release and restored only
    /// when the pointer leaves the edge.
    armed: bool,
}

/// A KVM machine, abstractly: where input goes, and whether crossing is armed.
pub struct KvmView {
    pub state: KvmState,
    pub armed: bool,
}

impl View for KvmMachine {
    type V = KvmView;

    closed spec fn view(&self) -> KvmView {
        KvmView { state: self.state, armed: self.armed }
    }
}

/// The release reason an event carries, if it is one of the four release events.
pub open spec fn release_reason(event: KvmEvent) -> Option<ReleaseReason> {
    match event {
        KvmEvent::EmergencyRelease => Some(ReleaseReason::EmergencyHotkey),
        KvmEvent::PeerLost => Some(ReleaseReason::PeerLost),
        KvmEvent::PeerEnded => Some(ReleaseReason::PeerEnded),
        KvmEvent::ReturnedAcrossEdge => Some(ReleaseReason::ReturnedAcrossEdge),
        _ => None,
    }
}

/// The machine after one event, and what the caller must do.
pub open spec fn kvm_step(m: KvmView, event: KvmEvent) -> (KvmView, KvmOutcome) {
    match release_reason(event) {
        Some(reason) => (
            KvmView { state: KvmState::Local, armed: false },
            if m.state == KvmState::Local { KvmOutcome::Unchanged } else { KvmOutcome::Released(reason) },
        ),
        None => if event == KvmEvent::EdgeLeft {
            (KvmView { state: m.state, armed: true }, KvmOutcome::Unchanged)
        } else if m.state == KvmState::Local && m.armed {
            (KvmView { state: KvmState::Remote, armed: m.armed }, KvmOutcome::Captured)
        } else {
            (m, KvmOutcome::Unchanged)
        },
    }
}

/// The machine after a sequence of events, in order.
pub open spec fn kvm_run(m: KvmView, events: Seq<KvmEvent>) -> KvmView
    decreases events.len(),
{
    if events.len() == 0 {
        m
    } else {
        kvm_step(kvm_run(m, events.drop_last()), events.last()).0
    }
}

impl Default for KvmMachine {
    fn default() -> (r: Self)
        ensures
            r@ == (KvmView { state: KvmState::Local, armed: true }),
    {
        KvmMachine::new()
    }
}

impl KvmMachine {
    /// Local, ungrabbed, and armed: the pointer has not just been released onto an edge.
    pub fn new() -> (r: Self)
        ensures
            r@ == (KvmView { state: KvmState::Local, armed: true }),
    {
        KvmMachine { state: KvmState::Local, armed: true }
    }

    pub fn state(&self) -> (r: KvmState)
        ensures
            r == self@.state,
    {
        self.state
    }

    /// Whether the caller should currently be grabbing local input.
    pub fn grab_active(&self) -> (r: bool)
        ensures
            r == (self@.state == KvmState::Remote),
    {
        match self.state {
            KvmState::Remote => true,
            KvmState::Local => false,
        }
    }

    /// Whether edge contact would currently start a capture.
    pub fn armed(&self) -> (r: bool)
        ensures
            r == self@.armed,
    {
        self.armed
    }

    /// Feed one event to the machine.
    pub fn on(&mut self, event: KvmEvent) -> (r: KvmOutcome)
        ensures
            (final(self)@, r) == kvm_step(old(self)@, event),
    {
        match event {
            KvmEvent::EmergencyRelease => self.release(ReleaseReason::EmergencyHotkey),
            KvmEvent::PeerLost => self.release(ReleaseReason::PeerLost),
            KvmEvent::PeerEnded => self.release(ReleaseReason::PeerEnded),
            KvmEvent::ReturnedAcrossEdge => self.release(ReleaseReason::ReturnedAcrossEdge),
            KvmEvent::EdgeLeft => {
                self.armed = true;
                KvmOutcome::Unchanged
            },
            KvmEvent::EdgeReached => {
                if self.state == KvmState::Local && self.armed {
                    self.state = KvmState::Remote;
                    KvmOutcome::Captured
                } else {
                    KvmOutcome::Unchanged
                }
            },
        }
    }

    fn release(&mut self, reason: ReleaseReason) -> (r: KvmOutcome)
        ensures
            final(self)@ == (KvmView { state: KvmState::Local, armed: false }),
            r == (if old(self)@.state == KvmState::Local {
                KvmOutcome::Unchanged
            } else {
                KvmOutcome::Released(reason)
            }),
    {
        self.armed = false;
        if self.state == KvmState::Local {
            return KvmOutcome::Unchanged;
        }
        self.state = KvmState::Local;
        KvmOutcome::Released(reason)
    }
}

/// Release is unconditional: every release event, from any state, leaves input
/// ungrabbed and crossing disarmed, and reports the release exactly when input was
/// grabbed.
pub proof fn lemma_release_is_unconditional(m: KvmView, event: KvmEvent)
    requires
        release_reason(event) is Some,
    ensures
        kvm_step(m, event).0.state == KvmState::Local,
        !kvm_step(m, event).0.armed,
        kvm_step(m, event).1 == (if m.state == KvmState::Remote {
            KvmOutcome::Released(release_reason(event)->0)
        } else {
            KvmOutcome::Unchanged
        }),
{
}

/// Release sticks: after a release, touching the edge again (any number of times)
/// captures nothing; only leaving the edge re-arms crossing.
pub proof fn lemma_release_sticks(m: KvmView, event: KvmEvent, n: nat)
    requires
        release_reason(event) is Some,
    ensures
        kvm_run(kvm_step(m, event).0, Seq::new(n, |i: int| KvmEvent::EdgeReached)).state == KvmState::Local,
        kvm_step(kvm_step(m, event).0, KvmEvent::EdgeReached).1 == KvmOutcome::Unchanged,
    decreases n,
{
    let r = kvm_step(m, event).0;
    if n > 0 {
        lemma_release_sticks(m, event, (n - 1) as nat);
        let s = Seq::new(n, |i: int| KvmEvent::EdgeReached);
        assert(s.drop_last() =~= Seq::new((n - 1) as nat, |i: int| KvmEvent::EdgeReached));
        lemma_edge_reached_keeps_disarmed(r, (n - 1) as nat);
    }
}

proof fn lemma_edge_reached_keeps_disarmed(r: KvmView, n: nat)
    requires
        r == (KvmView { state: KvmState::Local, armed: false }),
    ensures
        kvm_run(r, Seq::new(n, |i: int| KvmEvent::EdgeReached)) == r,
    decreases n,
{
    if n > 0 {
        lemma_edge_reached_keeps_disarmed(r, (n - 1) as nat);
        let s = Seq::new(n, |i: int| KvmEvent::EdgeReached);
        assert(s.drop_last() =~= Seq::new((n - 1) as nat, |i: int| KvmEvent::EdgeReached));
    }
}

/// No event sequence, however long, leaves input grabbed once it ends in an emergency
/// release.
pub proof fn lemma_emergency_release_ends_any_grab(m: KvmView, events: Seq<KvmEvent>)
    ensures
        kvm_run(m, events.push(KvmEvent::EmergencyRelease)).state == KvmState::Local,
{
    assert(events.push(KvmEvent::EmergencyRelease).drop_last() =~= events);
}

/// Captures happen only from a local, armed machine on edge contact.
pub proof fn lemma_capture_only_on_armed_edge(m: KvmView, event: KvmEvent)
    ensures
        kvm_step(m, event).1 == KvmOutcome::Captured
            <==> (event == KvmEvent::EdgeReached && m.state == KvmState::Local && m.armed),
{
}

} // verus!

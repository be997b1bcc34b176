//! Input loop prevention.
//!
//! Four layered defenses, all pure: the per-run injection marker, the origin device
//! identity, a hop limit, and a bounded memory of recently seen event ids.

use std::collections::{HashSet, VecDeque};

use vstd::prelude::*;

use crate::ids::{DeviceId, EventId};
use crate::protocol::MAX_HOPS;

verus! {

/// A per-process-run nonce identifying input this agent synthesized.
#[derive(Debug, Clone, Copy, PartialEq, Eq, Hash, Structural)]
pub struct InjectionMarker(pub u64);

/// The routing-relevant header of any input event, independent of payload.
#[derive(Debug, Clone, Copy, PartialEq, Eq)]
pub struct InputHeader {
    pub event_id: EventId,
    pub origin_device_id: DeviceId,
    pub hop_count: u8,
    /// Set if this event was synthesized by some agent's injector.
    pub injected_by: Option<InjectionMarker>,
}

/// Why the guard rejected an event.
#[derive(Debug, Clone, Copy, PartialEq, Eq, Structural)]
pub enum RejectReason {
    /// Re-captured one of our own injected events.
    OwnInjection,
    /// The event originated on this device and looped back.
    OwnOrigin,
    /// Exceeded the hop TTL.
    HopLimit,
    /// Already processed this event id.
    Duplicate,
}

#[derive(Debug, Clone, Copy, PartialEq, Eq, Structural)]
pub enum GuardDecision {
    Accept,
    Reject(RejectReason),
}

/// Bounded loop guard. `capacity` caps the de-duplication memory.
///
/// The memory is the ids in arrival order, oldest first, with no id twice.
#[derive(Debug)]
pub struct LoopGuard {
    self_device: DeviceId,
    self_marker: InjectionMarker,
    memory: Memory,
    capacity: usize,
}

/// The de-duplication memory: the ids oldest first, and the same ids as their numbers
/// for lookup.
#[derive(Debug)]
struct Memory {
    seen: HashSet<u128>,
    order: VecDeque<EventId>,
}

/// The numbers of the event ids in `s`.
pub open spec fn ids_of(s: Seq<EventId>) -> Set<u128> {
    Set::new(|x: u128| exists|i: int| 0 <= i < s.len() && #[trigger] s[i].0 == x)
}

proof fn lemma_ids_of_contains(s: Seq<EventId>, id: EventId)
    ensures
        ids_of(s).contains(id.0) <==> s.contains(id),
{
    if ids_of(s).contains(id.0) {
        let i = choose|i: int| 0 <= i < s.len() && #[trigger] s[i].0 == id.0;
        assert(s[i] == id);
    }
    if s.contains(id) {
        let i = choose|i: int| 0 <= i < s.len() && s[i] == id;
        assert(s[i].0 == id.0);
    }
}

proof fn lemma_ids_of_push(s: Seq<EventId>, id: EventId)
    ensures
        ids_of(s.push(id)) == ids_of(s).insert(id.0),
{
    let t = s.push(id);
    assert forall|x: u128| ids_of(t).contains(x) implies ids_of(s).insert(id.0).contains(x) by {
        let i = choose|i: int| 0 <= i < t.len() && #[trigger] t[i].0 == x;
        if i < s.len() {
            assert(s[i].0 == x);
        }
    }
    assert forall|x: u128| ids_of(s).insert(id.0).contains(x) implies ids_of(t).contains(x) by {
        if x == id.0 {
            assert(t[s.len() as int].0 == x);
        } else {
            let i = choose|i: int| 0 <= i < s.len() && #[trigger] s[i].0 == x;
            assert(t[i].0 == x);
        }
    }
    assert(ids_of(t) =~= ids_of(s).insert(id.0));
}

proof fn lemma_ids_of_drop_first(s: Seq<EventId>)
    requires
        s.len() > 0,
        s.no_duplicates(),
    ensures
        ids_of(s.subrange(1, s.len() as int)) == ids_of(s).remove(s[0].0),
{
    let t = s.subrange(1, s.len() as int);
    assert forall|x: u128| ids_of(t).contains(x) implies ids_of(s).remove(s[0].0).contains(x) by {
        let i = choose|i: int| 0 <= i < t.len() && #[trigger] t[i].0 == x;
        assert(s[i + 1].0 == x);
        assert(s[i + 1] != s[0]);
    }
    assert forall|x: u128| ids_of(s).remove(s[0].0).contains(x) implies ids_of(t).contains(x) by {
        let i = choose|i: int| 0 <= i < s.len() && #[trigger] s[i].0 == x;
        assert(i != 0);
        assert(t[i - 1].0 == x);
    }
    assert(ids_of(t) =~= ids_of(s).remove(s[0].0));
}

/// What a loop guard is, abstractly.
pub struct LoopGuardView {
    pub self_device: DeviceId,
    pub self_marker: InjectionMarker,
    /// Remembered event ids, oldest first.
    pub seen: Seq<EventId>,
    pub capacity: nat,
}

impl LoopGuardView {
    /// The memory is non-empty-capable, bounded by the capacity, and free of repeats.
    pub open spec fn wf(self) -> bool {
        &&& self.capacity >= 1
        &&& self.seen.len() <= self.capacity
        &&& self.seen.no_duplicates()
    }
}

impl View for LoopGuard {
    type V = LoopGuardView;

    closed spec fn view(&self) -> LoopGuardView {
        LoopGuardView {
            self_device: self.self_device,
            self_marker: self.self_marker,
            seen: self.memory.order@,
            capacity: self.capacity as nat,
        }
    }
}

/// The guard's verdict on a header, checked in order: own injection, own origin, hop
/// limit, duplicate.
pub open spec fn decide(g: LoopGuardView, h: InputHeader) -> GuardDecision {
    if h.injected_by == Some(g.self_marker) {
        GuardDecision::Reject(RejectReason::OwnInjection)
    } else if h.origin_device_id == g.self_device {
        GuardDecision::Reject(RejectReason::OwnOrigin)
    } else if h.hop_count >= MAX_HOPS {
        GuardDecision::Reject(RejectReason::HopLimit)
    } else if g.seen.contains(h.event_id) {
        GuardDecision::Reject(RejectReason::Duplicate)
    } else {
        GuardDecision::Accept
    }
}

/// The memory after recording `id`: appended, then the oldest entries dropped until at
/// most `capacity` remain.
pub open spec fn remember_spec(seen: Seq<EventId>, id: EventId, capacity: nat) -> Seq<EventId> {
    let s = seen.push(id);
    if s.len() > capacity {
        s.subrange(s.len() - capacity, s.len() as int)
    } else {
        s
    }
}

/// The header with its hop count bumped, or `None` when forwarding would reach the TTL.
pub open spec fn stamp_spec(h: InputHeader) -> Option<InputHeader> {
    if h.hop_count + 1 >= MAX_HOPS {
        None
    } else {
        Some(InputHeader { hop_count: (h.hop_count + 1) as u8, ..h })
    }
}

impl LoopGuard {
    #[verifier::type_invariant]
    closed spec fn inv(self) -> bool {
        &&& self.capacity >= 1
        &&& self.memory.order@.len() <= self.capacity
        &&& self.memory.order@.no_duplicates()
        &&& self.memory.seen@ == ids_of(self.memory.order@)
    }

    /// A guard for this device and run, remembering at most `max(capacity, 1)` ids.
    pub fn new(self_device: DeviceId, self_marker: InjectionMarker, capacity: usize) -> (r: Self)
        ensures
            r@.self_device == self_device,
            r@.self_marker == self_marker,
            r@.seen == Seq::<EventId>::empty(),
            r@.capacity == if capacity >= 1 { capacity as nat } else { 1 },
            r@.wf(),
    {
        let cap = if capacity >= 1 { capacity } else { 1 };
        let memory = Memory { seen: HashSet::new(), order: VecDeque::new() };
        proof {
            assert(ids_of(memory.order@) =~= Set::<u128>::empty());
        }
        LoopGuard { self_device, self_marker, memory, capacity: cap }
    }

    fn seen_contains(&self, id: EventId) -> (r: bool)
        ensures
            r == self.memory.order@.contains(id),
    {
        broadcast use vstd::std_specs::hash::group_hash_axioms;

        proof {
            use_type_invariant(self);
            lemma_ids_of_contains(self.memory.order@, id);
        }
        self.memory.seen.contains(&id.0)
    }

    /// Decide whether an incoming event may be injected locally. On `Accept` the event
    /// id is recorded so an immediate re-delivery is rejected as a duplicate.
    pub fn evaluate(&mut self, header: &InputHeader) -> (r: GuardDecision)
        ensures
            r == decide(old(self)@, *header),
            final(self)@ == guard_step(old(self)@, *header),
            final(self)@.self_device == old(self)@.self_device,
            final(self)@.self_marker == old(self)@.self_marker,
            final(self)@.capacity == old(self)@.capacity,
            r == GuardDecision::Accept ==> final(self)@.seen == remember_spec(
                old(self)@.seen,
                header.event_id,
                old(self)@.capacity,
            ),
            r != GuardDecision::Accept ==> final(self)@.seen == old(self)@.seen,
            final(self)@.wf(),
    {
        proof {
            use_type_invariant(&*self);
        }
        match header.injected_by {
            Some(m) => {
                if m == self.self_marker {
                    return GuardDecision::Reject(RejectReason::OwnInjection);
                }
            },
            None => {},
        }
        if header.origin_device_id == self.self_device {
            return GuardDecision::Reject(RejectReason::OwnOrigin);
        }
        if header.hop_count >= MAX_HOPS {
            return GuardDecision::Reject(RejectReason::HopLimit);
        }
        if self.seen_contains(header.event_id) {
            return GuardDecision::Reject(RejectReason::Duplicate);
        }
        self.remember(header.event_id);
        GuardDecision::Accept
    }

    /// Prepare an event to be forwarded onward: bump the hop count. Returns `None` if
    /// forwarding it would reach the TTL.
    pub fn stamp_for_forward(&self, header: &InputHeader) -> (r: Option<InputHeader>)
        ensures
            r == stamp_spec(*header),
    {
        let next = match header.hop_count.checked_add(1) {
            Some(n) => n,
            None => {
                return None;
            },
        };
        if next >= MAX_HOPS {
            return None;
        }
        Some(InputHeader { hop_count: next, ..*header })
    }

    /// Tag a header as injected by this process (call right before local injection).
    pub fn mark_injected(&self, header: &InputHeader) -> (r: InputHeader)
        ensures
            r == (InputHeader { injected_by: Some(self@.self_marker), ..*header }),
    {
        InputHeader { injected_by: Some(self.self_marker), ..*header }
    }

    fn remember(&mut self, id: EventId)
        requires
            !old(self)@.seen.contains(id),
        ensures
            final(self)@ == (LoopGuardView {
                seen: remember_spec(old(self)@.seen, id, old(self)@.capacity),
                ..old(self)@
            }),
    {
        proof {
            use_type_invariant(&*self);
        }
        broadcast use vstd::std_specs::hash::group_hash_axioms;
        broadcast use vstd::std_specs::vecdeque::group_vec_dequeue_axioms;

        let mut memory = Memory { seen: HashSet::new(), order: VecDeque::new() };
        proof {
            assert(ids_of(memory.order@) =~= Set::<u128>::empty());
        }
        std::mem::swap(&mut memory, &mut self.memory);
        let Memory { mut seen, mut order } = memory;
        let ghost before = order@;
        proof {
            lemma_ids_of_push(before, id);
        }
        seen.insert(id.0);
        order.push_back(id);
        proof {
            assert(order@.no_duplicates()) by {
                assert forall|a: int, b: int|
                    0 <= a < order@.len() && 0 <= b < order@.len() && a != b
                    implies order@[a] != order@[b] by {
                    if a == before.len() as int {
                        assert(before.contains(order@[b]));
                    } else if b == before.len() as int {
                        assert(before.contains(order@[a]));
                    }
                }
            }
        }
        while order.len() > self.capacity
            invariant
                self.capacity >= 1,
                order@.len() <= self.capacity + 1,
                order@.no_duplicates(),
                seen@ == ids_of(order@),
                before.len() <= self.capacity,
                order@ == remember_spec(before, id, self.capacity as nat) || order@ == before.push(id),
                order@.len() > self.capacity ==> order@ == before.push(id),
            decreases order@.len(),
        {
            let ghost prev = order@;
            proof {
                lemma_ids_of_drop_first(prev);
            }
            if let Some(oldest) = order.pop_front() {
                seen.remove(&oldest.0);
            }
            proof {
                assert(order@ =~= prev.subrange(1, prev.len() as int));
                assert(remember_spec(before, id, self.capacity as nat) =~= order@);
            }
        }
        proof {
            if order@ == before.push(id) {
                assert(remember_spec(before, id, self.capacity as nat) == order@);
            }
        }
        self.memory = Memory { seen, order };
    }
}

/// Loop prevention at its source: a header this guard marked for injection, if it is
/// re-captured, is always rejected as our own injection, whatever else it carries.
pub proof fn lemma_marked_injection_is_rejected(g: LoopGuardView, h: InputHeader)
    ensures
        decide(g, InputHeader { injected_by: Some(g.self_marker), ..h })
            == GuardDecision::Reject(RejectReason::OwnInjection),
{
}

/// An event that originated on this device never comes back in, unless it is rejected
/// earlier for being our own injection.
pub proof fn lemma_own_origin_is_never_accepted(g: LoopGuardView, h: InputHeader)
    requires
        h.origin_device_id == g.self_device,
    ensures
        decide(g, h) != GuardDecision::Accept,
{
}

/// An accepted event, delivered again straight away, is rejected as a duplicate.
pub proof fn lemma_accept_then_duplicate(g: LoopGuardView, h: InputHeader)
    requires
        g.wf(),
        decide(g, h) == GuardDecision::Accept,
    ensures
        decide(LoopGuardView { seen: remember_spec(g.seen, h.event_id, g.capacity), ..g }, h)
            == GuardDecision::Reject(RejectReason::Duplicate),
{
    let s = remember_spec(g.seen, h.event_id, g.capacity);
    let p = g.seen.push(h.event_id);
    assert(s[s.len() - 1] == h.event_id);
    assert(s.contains(h.event_id));
}

/// Remembering keeps the memory bounded and free of repeats.
pub proof fn lemma_remember_keeps_bounds(g: LoopGuardView, id: EventId)
    requires
        g.wf(),
        !g.seen.contains(id),
    ensures
        (LoopGuardView { seen: remember_spec(g.seen, id, g.capacity), ..g }).wf(),
{
    let p = g.seen.push(id);
    assert(p.no_duplicates()) by {
        assert forall|a: int, b: int| 0 <= a < p.len() && 0 <= b < p.len() && a != b implies p[a] != p[b] by {
            if a == g.seen.len() as int {
                assert(g.seen.contains(p[b]));
            } else if b == g.seen.len() as int {
                assert(g.seen.contains(p[a]));
            }
        }
    }
    let s = remember_spec(g.seen, id, g.capacity);
    if p.len() > g.capacity {
        assert forall|a: int, b: int| 0 <= a < s.len() && 0 <= b < s.len() && a != b implies s[a] != s[b] by {
            let k = p.len() - g.capacity;
            assert(s[a] == p[a + k]);
            assert(s[b] == p[b + k]);
        }
    }
}

/// A stamped header is strictly under the hop limit, one hop further than it was, and
/// otherwise unchanged; so a chain of forwards stops after at most `MAX_HOPS - 1` hops.
pub proof fn lemma_stamp_bounds_hops(h: InputHeader)
    ensures
        stamp_spec(h) matches Some(n) ==> n.hop_count < MAX_HOPS && n.hop_count == h.hop_count + 1
            && n.event_id == h.event_id && n.origin_device_id == h.origin_device_id
            && n.injected_by == h.injected_by,
        h.hop_count + 1 >= MAX_HOPS ==> stamp_spec(h) is None,
{
}

/// The guard after one header: on `Accept` the id is remembered, otherwise nothing
/// changes. This is what [`LoopGuard::evaluate`] does to the guard's view.
pub open spec fn guard_step(g: LoopGuardView, h: InputHeader) -> LoopGuardView {
    if decide(g, h) == GuardDecision::Accept {
        LoopGuardView { seen: remember_spec(g.seen, h.event_id, g.capacity), ..g }
    } else {
        g
    }
}

/// The guard after evaluating each header of `hs` in turn.
pub open spec fn guard_run(g: LoopGuardView, hs: Seq<InputHeader>) -> LoopGuardView
    decreases hs.len(),
{
    if hs.len() == 0 {
        g
    } else {
        guard_step(guard_run(g, hs.drop_last()), hs.last())
    }
}

/// The event ids accepted while evaluating `hs`, in order.
pub open spec fn accepted_ids(g: LoopGuardView, hs: Seq<InputHeader>) -> Seq<EventId>
    decreases hs.len(),
{
    if hs.len() == 0 {
        Seq::empty()
    } else {
        let before = accepted_ids(g, hs.drop_last());
        if decide(guard_run(g, hs.drop_last()), hs.last()) == GuardDecision::Accept {
            before.push(hs.last().event_id)
        } else {
            before
        }
    }
}

/// The last `k` entries of `s`, or all of it when it is shorter.
pub open spec fn last_k(s: Seq<EventId>, k: nat) -> Seq<EventId> {
    if s.len() > k {
        s.subrange(s.len() - k, s.len() as int)
    } else {
        s
    }
}

/// Over any run from a fresh guard, the de-duplication memory is exactly the last
/// `capacity` accepted ids, oldest first, and never holds more.
pub proof fn lemma_memory_is_the_last_accepted(g: LoopGuardView, hs: Seq<InputHeader>)
    requires
        g.wf(),
        g.seen == Seq::<EventId>::empty(),
    ensures
        guard_run(g, hs).seen == last_k(accepted_ids(g, hs), g.capacity),
        guard_run(g, hs).seen.len() <= g.capacity,
        guard_run(g, hs).wf(),
        guard_run(g, hs).self_device == g.self_device,
        guard_run(g, hs).self_marker == g.self_marker,
        guard_run(g, hs).capacity == g.capacity,
    decreases hs.len(),
{
    if hs.len() > 0 {
        lemma_memory_is_the_last_accepted(g, hs.drop_last());
        let prev = guard_run(g, hs.drop_last());
        let h = hs.last();
        let a = accepted_ids(g, hs.drop_last());
        let k = g.capacity;
        if decide(prev, h) == GuardDecision::Accept {
            lemma_remember_keeps_bounds(prev, h.event_id);
            let p = prev.seen.push(h.event_id);
            let a2 = a.push(h.event_id);
            if a.len() > k {
                assert(prev.seen.len() == k);
                assert(remember_spec(prev.seen, h.event_id, k) =~= p.subrange(1, k as int + 1));
                assert(p.subrange(1, k as int + 1) =~= a2.subrange(a2.len() - k, a2.len() as int));
            } else {
                assert(prev.seen =~= a);
                assert(p =~= a2);
            }
        }
    }
}

/// Once a run has been evaluated, a header that passes the other three checks is
/// rejected as a duplicate exactly when its id is among the last `capacity` accepted.
pub proof fn lemma_duplicate_iff_recent(g: LoopGuardView, hs: Seq<InputHeader>, h: InputHeader)
    requires
        g.wf(),
        g.seen == Seq::<EventId>::empty(),
        h.injected_by != Some(g.self_marker),
        h.origin_device_id != g.self_device,
        h.hop_count < MAX_HOPS,
    ensures
        decide(guard_run(g, hs), h) == GuardDecision::Reject(RejectReason::Duplicate) <==> last_k(
            accepted_ids(g, hs),
            g.capacity,
        ).contains(h.event_id),
{
    lemma_memory_is_the_last_accepted(g, hs);
}

} // verus!

//! The control app's saved audio routes, and carrying them onto this machine's
//! identity-derived device id.
//!
//! Every settings file was once written against a random id minted on first run. Simply
//! overwriting the stored id would leave every saved route pointing at an id that no
//! longer names any machine, and the routes would silently vanish from the panel. So the
//! routes are carried across with the id: only endpoints that belonged to this machine
//! move, and a route naming a peer keeps that peer's id.

use vstd::prelude::*;

use crate::ids::DeviceId;

verus! {

/// Schema version of the settings file. Bumped when a field changes meaning rather
/// than merely being added.
pub const SETTINGS_VERSION: u32 = 1;

/// An audio endpoint: the machine it is on, and its node name there (opaque here).
#[derive(Debug, Clone, PartialEq, Eq)]
pub struct DeviceKey {
    pub device_id: DeviceId,
    pub node: String,
}

/// Audio from one endpoint played on another.
#[derive(Debug, Clone, PartialEq, Eq)]
pub struct Route {
    pub source: DeviceKey,
    pub sink: DeviceKey,
}

/// The endpoint after this machine's id `previous` becomes `derived`.
pub open spec fn rekey(k: DeviceKey, previous: DeviceId, derived: DeviceId) -> DeviceKey {
    if k.device_id == previous {
        DeviceKey { device_id: derived, node: k.node }
    } else {
        k
    }
}

/// The route after this machine's id `previous` becomes `derived`.
pub open spec fn rekey_route(r: Route, previous: DeviceId, derived: DeviceId) -> Route {
    Route { source: rekey(r.source, previous, derived), sink: rekey(r.sink, previous, derived) }
}

/// Re-key this machine's saved state onto the id derived from its identity: the stored
/// id becomes `derived`, and every route endpoint that named the stored id names
/// `derived` instead. Returns whether anything changed, so the caller saves once at the
/// upgrade rather than on every launch.
pub fn adopt_device_id(local: &mut DeviceId, routes: &mut Vec<Route>, derived: DeviceId) -> (changed: bool)
    ensures
        changed == (*old(local) != derived),
        *final(local) == derived,
        final(routes)@.len() == old(routes)@.len(),
        forall|i: int|
            0 <= i < old(routes)@.len() ==> #[trigger] final(routes)@[i] == rekey_route(
                old(routes)@[i],
                *old(local),
                derived,
            ),
{
    let previous = *local;
    if previous == derived {
        proof {
            assert forall|i: int| 0 <= i < routes@.len() implies #[trigger] routes@[i] == rekey_route(
                routes@[i],
                previous,
                derived,
            ) by {
                let r = routes@[i];
                assert(rekey(r.source, previous, derived) == r.source);
                assert(rekey(r.sink, previous, derived) == r.sink);
            }
        }
        return false;
    }
    let ghost original = routes@;
    let mut i: usize = 0;
    while i < routes.len()
        invariant
            i <= routes@.len(),
            routes@.len() == original.len(),
            forall|j: int| 0 <= j < i ==> #[trigger] routes@[j] == rekey_route(original[j], previous, derived),
            forall|j: int| i <= j < routes@.len() ==> #[trigger] routes@[j] == original[j],
        decreases routes@.len() - i,
    {
        if routes[i].source.device_id == previous {
            routes[i].source.device_id = derived;
        }
        if routes[i].sink.device_id == previous {
            routes[i].sink.device_id = derived;
        }
        assert(routes@[i as int] == rekey_route(original[i as int], previous, derived));
        i = i + 1;
    }
    *local = derived;
    true
}

/// What adoption promises: a route endpoint that named a peer keeps the peer's id,
/// every node name is untouched, and no endpoint names the stored id afterwards unless
/// it was already the derived one.
pub proof fn lemma_rekey_moves_only_this_machine(r: Route, previous: DeviceId, derived: DeviceId)
    ensures
        r.source.device_id != previous ==> rekey_route(r, previous, derived).source == r.source,
        r.sink.device_id != previous ==> rekey_route(r, previous, derived).sink == r.sink,
        rekey_route(r, previous, derived).source.node == r.source.node,
        rekey_route(r, previous, derived).sink.node == r.sink.node,
        previous != derived ==> rekey_route(r, previous, derived).source.device_id != previous,
        previous != derived ==> rekey_route(r, previous, derived).sink.device_id != previous,
{
}

/// Adopting the id already stored changes nothing; adopting one id twice is the same as
/// adopting it once.
pub proof fn lemma_rekey_is_idempotent(r: Route, previous: DeviceId, derived: DeviceId)
    ensures
        rekey_route(r, derived, derived) == r,
        rekey_route(rekey_route(r, previous, derived), derived, derived) == rekey_route(r, previous, derived),
{
}

} // verus!

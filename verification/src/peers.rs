//! The peers this machine trusts, pinned by public key.
//!
//! The key is the identity; the name is only a label. Trusting a device and letting it
//! do anything are separate decisions, recorded per peer as [`Permissions`], and the
//! default for anything missing is "not granted".

use vstd::prelude::*;

use crate::bytes::be_value;
use crate::ids::DeviceId;
use crate::key::{device_id_bytes, PeerKey};
use crate::text::{lemma_trim_is_trimmed, str_eq, trim, trim_str, trimmed_nonempty};

verus! {

/// File name inside the configuration directory.
pub const PEERS_FILE: &'static str = "peers.json";

/// Schema version. v2 added [`Permissions`]; a v1 file is migrated to full access.
pub const PEERS_VERSION: u32 = 2;

/// A permission name this build does not know.
#[derive(Debug, Clone, PartialEq, Eq)]
pub struct UnknownPermission(pub String);

/// Why a pin was refused.
#[derive(Debug, Clone, Copy, PartialEq, Eq, Structural)]
pub enum PinError {
    /// Pairing a machine with itself.
    SelfPairing,
    /// A blank name would show as an empty row.
    EmptyName,
}

/// What [`PeerStore::pin`] did.
#[derive(Debug, Clone, PartialEq, Eq)]
pub enum PinOutcome {
    Added,
    /// The key was already pinned; only the label changed.
    Renamed { previous: String },
    /// The key was already pinned under this exact name.
    Unchanged,
}

/// What this machine lets one peer do to it.
#[derive(Debug, Clone, Copy, PartialEq, Eq, Structural)]
pub struct Permissions {
    /// Move this machine's pointer, press its keys, turn its wheel.
    pub control_input: bool,
    /// Read what this machine has: its audio endpoints and monitors.
    pub read_devices: bool,
    /// List this machine's open windows, titles included.
    pub list_windows: bool,
}

pub open spec fn no_permissions() -> Permissions {
    Permissions { control_input: false, read_devices: false, list_windows: false }
}

pub open spec fn all_permissions() -> Permissions {
    Permissions { control_input: true, read_devices: true, list_windows: true }
}

pub open spec fn pairing_permissions() -> Permissions {
    Permissions { control_input: true, read_devices: true, list_windows: false }
}

/// The operator-facing names of the granted permissions, in a fixed order.
pub open spec fn granted_names(p: Permissions) -> Seq<Seq<char>> {
    let a = if p.control_input { seq!["control-input"@] } else { Seq::empty() };
    let b = if p.read_devices { seq!["read-devices"@] } else { Seq::empty() };
    let c = if p.list_windows { seq!["list-windows"@] } else { Seq::empty() };
    a + b + c
}

/// Names joined by `", "`.
pub open spec fn joined(names: Seq<Seq<char>>) -> Seq<char>
    decreases names.len(),
{
    if names.len() <= 1 {
        if names.len() == 1 { names[0] } else { Seq::empty() }
    } else {
        joined(names.drop_last()) + ", "@ + names.last()
    }
}

/// What an operator is shown a peer may do.
pub open spec fn describe_text(p: Permissions) -> Seq<char> {
    if granted_names(p).len() == 0 {
        "nothing"@
    } else {
        joined(granted_names(p))
    }
}

/// `p` with the named permission set to `allowed`, or `None` for an unknown name.
pub open spec fn set_named_spec(p: Permissions, name: Seq<char>, allowed: bool) -> Option<Permissions> {
    if name == "control-input"@ {
        Some(Permissions { control_input: allowed, ..p })
    } else if name == "read-devices"@ {
        Some(Permissions { read_devices: allowed, ..p })
    } else if name == "list-windows"@ {
        Some(Permissions { list_windows: allowed, ..p })
    } else {
        None
    }
}

impl Default for Permissions {
    /// Nothing granted.
    fn default() -> (r: Self)
        ensures
            r == no_permissions(),
    {
        Permissions { control_input: false, read_devices: false, list_windows: false }
    }
}

impl Permissions {
    /// Everything this build knows how to grant.
    pub fn all() -> (r: Self)
        ensures
            r == all_permissions(),
    {
        Permissions { control_input: true, read_devices: true, list_windows: true }
    }

    /// What a freshly paired peer gets: input and device reading, not window titles.
    pub fn on_pairing() -> (r: Self)
        ensures
            r == pairing_permissions(),
    {
        Permissions { control_input: true, read_devices: true, list_windows: false }
    }

    /// The granted names, for showing an operator what a peer may do.
    pub fn granted(&self) -> (r: Vec<&'static str>)
        ensures
            r@.map_values(|s: &str| s@) == granted_names(*self),
    {
        let mut out: Vec<&'static str> = Vec::new();
        if self.control_input {
            out.push("control-input");
        }
        if self.read_devices {
            out.push("read-devices");
        }
        if self.list_windows {
            out.push("list-windows");
        }
        proof {
            assert(out@.map_values(|s: &str| s@) =~= granted_names(*self));
        }
        out
    }

    /// Set one permission by its operator-facing name. Returns `false` (changing
    /// nothing) for a name this build does not know.
    pub fn set_named(&mut self, name: &str, allowed: bool) -> (r: bool)
        ensures
            r == set_named_spec(*old(self), name@, allowed) is Some,
            r ==> *final(self) == set_named_spec(*old(self), name@, allowed)->0,
            !r ==> *final(self) == *old(self),
    {
        if str_eq(name, "control-input") {
            self.control_input = allowed;
        } else if str_eq(name, "read-devices") {
            self.read_devices = allowed;
        } else if str_eq(name, "list-windows") {
            self.list_windows = allowed;
        } else {
            return false;
        }
        true
    }

    /// What a peer may do, for an operator: the granted names joined by `", "`, or
    /// `nothing` spelled out rather than shown as blank space.
    pub fn describe(&self) -> (r: String)
        ensures
            r@ == describe_text(*self),
    {
        let granted = self.granted();
        if granted.len() == 0 {
            return String::from_str("nothing");
        }
        let ghost names = granted@.map_values(|s: &str| s@);
        let mut out = String::from_str(granted[0]);
        let mut i: usize = 1;
        while i < granted.len()
            invariant
                1 <= i <= granted@.len(),
                names == granted@.map_values(|s: &str| s@),
                out@ == joined(names.subrange(0, i as int)),
            decreases granted@.len() - i,
        {
            out.append(", ");
            out.append(granted[i]);
            proof {
                assert(names.subrange(0, i + 1).drop_last() =~= names.subrange(0, i as int));
            }
            i = i + 1;
        }
        proof {
            assert(names.subrange(0, granted@.len() as int) =~= names);
        }
        out
    }

    /// Every name [`Permissions::set_named`] accepts.
    pub fn names() -> (r: [&'static str; 3])
        ensures
            r@.map_values(|s: &str| s@) == seq!["control-input"@, "read-devices"@, "list-windows"@],
    {
        let r = ["control-input", "read-devices", "list-windows"];
        proof {
            assert(r@.map_values(|s: &str| s@) =~= seq!["control-input"@, "read-devices"@, "list-windows"@]);
        }
        r
    }
}

/// One trusted device.
#[derive(Debug, PartialEq, Eq)]
pub struct PairedPeer {
    pub key: PeerKey,
    /// Operator-facing label. Never used for identity.
    pub name: String,
    /// Unix seconds.
    pub paired_at_unix: u64,
    /// What this machine lets the peer do.
    pub permissions: Permissions,
    /// Where this peer was last reached, as `host:port`. A hint, never an identity.
    pub address: Option<String>,
}

impl Clone for PairedPeer {
    fn clone(&self) -> (r: Self)
        ensures
            r == *self,
    {
        PairedPeer {
            key: self.key,
            name: self.name.clone(),
            paired_at_unix: self.paired_at_unix,
            permissions: self.permissions,
            address: match &self.address {
                Some(a) => Some(a.clone()),
                None => None,
            },
        }
    }
}

/// The index of the first peer pinned under `key`, or -1.
pub open spec fn first_index(peers: Seq<PairedPeer>, key: Seq<u8>) -> int
    decreases peers.len(),
{
    if peers.len() == 0 {
        -1
    } else if peers[0].key@ == key {
        0
    } else {
        let r = first_index(peers.drop_first(), key);
        if r < 0 {
            -1
        } else {
            r + 1
        }
    }
}

/// The peer pinned under `key`, if any.
pub open spec fn lookup(peers: Seq<PairedPeer>, key: Seq<u8>) -> Option<PairedPeer> {
    let i = first_index(peers, key);
    if i < 0 {
        None
    } else {
        Some(peers[i])
    }
}

/// The device id a key derives.
pub open spec fn key_device_id(key: Seq<u8>) -> DeviceId {
    DeviceId(be_value(device_id_bytes(key)) as u128)
}

/// The key of the first pinned peer whose derived device id is `owner`, if any.
pub open spec fn owner_of(peers: Seq<PairedPeer>, owner: DeviceId) -> Option<PeerKey>
    decreases peers.len(),
{
    if peers.len() == 0 {
        None
    } else if key_device_id(peers[0].key@) == owner {
        Some(peers[0].key)
    } else {
        owner_of(peers.drop_first(), owner)
    }
}

/// What remembering `address` for `key` does to a store `old`, giving `new` and `r`:
/// nothing for an unpaired key or an unchanged address; otherwise the peer's entry
/// takes the new address and `r` is true.
pub open spec fn remembered(
    old: PeerStoreView,
    key: Seq<u8>,
    address: Seq<char>,
    r: bool,
    new: PeerStoreView,
) -> bool {
    &&& new.local == old.local
    &&& match lookup(old.peers, key) {
        None => !r && new == old,
        Some(p) => if p.address matches Some(a) && a@ == address {
            !r && new == old
        } else {
            r && new.peers == old.peers.update(
                first_index(old.peers, key),
                PairedPeer { address: new.peers[first_index(old.peers, key)].address, ..p },
            ) && (new.peers[first_index(old.peers, key)].address matches Some(a) && a@ == address)
        },
    }
}

/// One pinned entry is acceptable in a store with local key `local`: it is not this
/// machine's own key, and its name is trimmed and non-empty.
pub open spec fn peer_ok(local: PeerKey, p: PairedPeer) -> bool {
    p.key@ != local@ && trimmed_nonempty(p.name@)
}

impl PeerStoreView {
    /// What pairing keeps true of a store: no key twice, never this machine's own key,
    /// and every name trimmed and non-empty.
    pub open spec fn wf(self) -> bool {
        &&& unique_keys(self.peers)
        &&& forall|i: int| 0 <= i < self.peers.len() ==> peer_ok(self.local, #[trigger] self.peers[i])
    }
}

/// What pinning `key` under `name` at `now` does to a store `old`, giving `new` and `r`.
pub open spec fn pinned(
    old: PeerStoreView,
    key: PeerKey,
    name: Seq<char>,
    now: u64,
    r: Result<PinOutcome, PinError>,
    new: PeerStoreView,
) -> bool {
    &&& new.local == old.local
    &&& key@ == old.local@ ==> r == Err::<PinOutcome, PinError>(PinError::SelfPairing) && new == old
    &&& key@ != old.local@ && trim(name).len() == 0 ==> r == Err::<PinOutcome, PinError>(PinError::EmptyName)
        && new == old
    &&& key@ != old.local@ && trim(name).len() > 0 ==> match lookup(old.peers, key@) {
        None => r == Ok::<PinOutcome, PinError>(PinOutcome::Added) && new.peers == old.peers.push(
            PairedPeer {
                key,
                name: new.peers.last().name,
                paired_at_unix: now,
                permissions: pairing_permissions(),
                address: None,
            },
        ) && new.peers.last().name@ == trim(name),
        Some(p) => if p.name@ == trim(name) {
            r == Ok::<PinOutcome, PinError>(PinOutcome::Unchanged) && new == old
        } else {
            r == Ok::<PinOutcome, PinError>(PinOutcome::Renamed { previous: p.name }) && new.peers
                == old.peers.update(
                first_index(old.peers, key@),
                PairedPeer { name: new.peers[first_index(old.peers, key@)].name, ..p },
            ) && new.peers[first_index(old.peers, key@)].name@ == trim(name)
        },
    }
}

/// What setting permission `name` to `allowed` for `key` does to a store `old`.
pub open spec fn permission_set(
    old: PeerStoreView,
    key: Seq<u8>,
    name: Seq<char>,
    allowed: bool,
    r: Result<bool, UnknownPermission>,
    new: PeerStoreView,
) -> bool {
    &&& new.local == old.local
    &&& match lookup(old.peers, key) {
        None => r == Ok::<bool, UnknownPermission>(false) && new == old,
        Some(p) => match set_named_spec(p.permissions, name, allowed) {
            None => r matches Err(e) && e.0@ == name && new == old,
            Some(np) => r == Ok::<bool, UnknownPermission>(true) && new.peers == old.peers.update(
                first_index(old.peers, key),
                PairedPeer { permissions: np, ..p },
            ),
        },
    }
}

/// No key is pinned twice.
pub open spec fn unique_keys(peers: Seq<PairedPeer>) -> bool {
    forall|i: int, j: int|
        0 <= i < peers.len() && 0 <= j < peers.len() && i != j ==> #[trigger] peers[i].key@ != #[trigger] peers[j].key@
}

/// The first-index search: -1 exactly when no peer has the key; otherwise an index
/// holding it, with no earlier one holding it.
pub proof fn lemma_first_index(peers: Seq<PairedPeer>, key: Seq<u8>)
    ensures
        -1 <= first_index(peers, key) < peers.len(),
        first_index(peers, key) == -1 <==> forall|j: int| 0 <= j < peers.len() ==> #[trigger] peers[j].key@ != key,
        first_index(peers, key) >= 0 ==> peers[first_index(peers, key)].key@ == key,
        forall|j: int| 0 <= j < first_index(peers, key) ==> #[trigger] peers[j].key@ != key,
    decreases peers.len(),
{
    if peers.len() > 0 {
        lemma_first_index(peers.drop_first(), key);
        if peers[0].key@ != key {
            assert forall|j: int| 0 <= j < peers.len() && peers.drop_first().len() >= 0 implies
                (#[trigger] peers[j].key@ != key) == (j == 0 || peers.drop_first()[j - 1].key@ != key) by {
            }
        }
    }
}

/// The trusted peers, and this machine's own key so that self-pairing is refused.
#[derive(Debug, Clone)]
pub struct PeerStore {
    local: PeerKey,
    peers: Vec<PairedPeer>,
}

/// A peer store, abstractly: the local key and the pinned peers in pinning order.
pub struct PeerStoreView {
    pub local: PeerKey,
    pub peers: Seq<PairedPeer>,
}

impl View for PeerStore {
    type V = PeerStoreView;

    closed spec fn view(&self) -> PeerStoreView {
        PeerStoreView { local: self.local, peers: self.peers@ }
    }
}

/// What a read of the peers file produced.
pub struct LoadedPeers {
    pub store: PeerStore,
    /// Something the operator should be told.
    pub note: Option<String>,
    /// The file was an older schema and was upgraded in memory.
    pub migrated: bool,
}

impl PeerStore {
    pub fn new(local: PeerKey) -> (r: Self)
        ensures
            r@.wf(),
            r@.local == local,
            r@.peers == Seq::<PairedPeer>::empty(),
    {
        PeerStore { local, peers: Vec::new() }
    }

    pub fn local(&self) -> (r: PeerKey)
        ensures
            r == self@.local,
    {
        self.local
    }

    fn find(&self, key: &PeerKey) -> (r: Option<usize>)
        ensures
            match r {
                Some(i) => i as int == first_index(self.peers@, key@) && i < self.peers@.len()
                    && self.peers@[i as int].key@ == key@,
                None => first_index(self.peers@, key@) == -1,
            },
    {
        proof {
            lemma_first_index(self.peers@, key@);
        }
        let mut i: usize = 0;
        while i < self.peers.len()
            invariant
                i <= self.peers@.len(),
                forall|j: int| 0 <= j < i ==> #[trigger] self.peers@[j].key@ != key@,
                -1 <= first_index(self.peers@, key@) < self.peers@.len(),
                first_index(self.peers@, key@) == -1 <==> forall|j: int| 0 <= j < self.peers@.len() ==> #[trigger] self.peers@[j].key@ != key@,
                first_index(self.peers@, key@) >= 0 ==> self.peers@[first_index(self.peers@, key@)].key@ == key@,
                forall|j: int| 0 <= j < first_index(self.peers@, key@) ==> #[trigger] self.peers@[j].key@ != key@,
            decreases self.peers@.len() - i,
        {
            if self.peers[i].key.same(key) {
                return Some(i);
            }
            i = i + 1;
        }
        None
    }

    /// The question every incoming connection asks.
    pub fn trusts(&self, key: &PeerKey) -> (r: bool)
        ensures
            r == lookup(self@.peers, key@) is Some,
    {
        self.find(key).is_some()
    }

    pub fn get(&self, key: &PeerKey) -> (r: Option<&PairedPeer>)
        ensures
            match r {
                Some(p) => lookup(self@.peers, key@) == Some(*p),
                None => lookup(self@.peers, key@) is None,
            },
    {
        match self.find(key) {
            Some(i) => Some(&self.peers[i]),
            None => None,
        }
    }

    pub fn peers(&self) -> (r: &[PairedPeer])
        ensures
            r@ == self@.peers,
    {
        self.peers.as_slice()
    }

    /// Every trusted key, for handing to the transport's pinning verifier.
    pub fn keys(&self) -> (r: Vec<PeerKey>)
        ensures
            r@ == self@.peers.map_values(|p: PairedPeer| p.key),
    {
        let mut out: Vec<PeerKey> = Vec::new();
        let mut i: usize = 0;
        while i < self.peers.len()
            invariant
                i <= self.peers@.len(),
                out@ == self.peers@.subrange(0, i as int).map_values(|p: PairedPeer| p.key),
            decreases self.peers@.len() - i,
        {
            out.push(self.peers[i].key);
            proof {
                assert(self.peers@.subrange(0, i + 1).map_values(|p: PairedPeer| p.key) =~= self.peers@.subrange(
                    0,
                    i as int,
                ).map_values(|p: PairedPeer| p.key).push(self.peers@[i as int].key));
            }
            i = i + 1;
        }
        proof {
            assert(self.peers@.subrange(0, self.peers@.len() as int) =~= self.peers@);
        }
        out
    }

    /// Trust a device, or rename one already trusted. The name is trimmed; a key
    /// already present is updated rather than appended.
    pub fn pin(&mut self, key: PeerKey, name: &str, now_unix: u64) -> (r: Result<PinOutcome, PinError>)
        ensures
            pinned(old(self)@, key, name@, now_unix, r, final(self)@),
            old(self)@.wf() ==> final(self)@.wf(),
            final(self)@.local == old(self)@.local,
            key@ == old(self)@.local@ ==> r == Err::<PinOutcome, PinError>(PinError::SelfPairing)
                && final(self)@ == old(self)@,
            key@ != old(self)@.local@ && trim(name@).len() == 0 ==> r == Err::<PinOutcome, PinError>(
                PinError::EmptyName,
            ) && final(self)@ == old(self)@,
            key@ != old(self)@.local@ && trim(name@).len() > 0 ==> match lookup(old(self)@.peers, key@) {
                None => r == Ok::<PinOutcome, PinError>(PinOutcome::Added) && final(self)@.peers
                    == old(self)@.peers.push(
                    PairedPeer {
                        key,
                        name: final(self)@.peers.last().name,
                        paired_at_unix: now_unix,
                        permissions: pairing_permissions(),
                        address: None,
                    },
                ) && final(self)@.peers.last().name@ == trim(name@),
                Some(p) => if p.name@ == trim(name@) {
                    r == Ok::<PinOutcome, PinError>(PinOutcome::Unchanged) && final(self)@ == old(self)@
                } else {
                    r == Ok::<PinOutcome, PinError>(PinOutcome::Renamed { previous: p.name })
                        && final(self)@.peers == old(self)@.peers.update(
                        first_index(old(self)@.peers, key@),
                        PairedPeer { name: final(self)@.peers[first_index(old(self)@.peers, key@)].name, ..p },
                    ) && final(self)@.peers[first_index(old(self)@.peers, key@)].name@ == trim(name@)
                },
            },
    {
        let ghost before = self@;
        if key.same(&self.local) {
            return Err(PinError::SelfPairing);
        }
        let trimmed = trim_str(name);
        if trimmed.as_str().unicode_len() == 0 {
            return Err(PinError::EmptyName);
        }
        match self.find(&key) {
            Some(i) => {
                if str_eq(self.peers[i].name.as_str(), trimmed.as_str()) {
                    return Ok(PinOutcome::Unchanged);
                }
                let mut existing = self.peers[i].clone();
                let previous = existing.name.clone();
                existing.name = trimmed;
                self.peers.set(i, existing);
                let r = Ok(PinOutcome::Renamed { previous });
                proof {
                    assert(pinned(before, key, name@, now_unix, r, self@));
                    if before.wf() {
                        lemma_pin_keeps_wf(before, key, name@, now_unix, r, self@);
                    }
                }
                r
            },
            None => {
                self.peers.push(
                    PairedPeer {
                        key,
                        name: trimmed,
                        paired_at_unix: now_unix,
                        permissions: Permissions::on_pairing(),
                        address: None,
                    },
                );
                let r = Ok(PinOutcome::Added);
                proof {
                    assert(pinned(before, key, name@, now_unix, r, self@));
                    if before.wf() {
                        lemma_pin_keeps_wf(before, key, name@, now_unix, r, self@);
                    }
                }
                r
            },
        }
    }

    /// Remember where a peer was last reached. Returns whether anything changed; an
    /// unpaired key is left alone (recording it would be creating trust).
    pub fn remember_address(&mut self, key: &PeerKey, address: &str) -> (r: bool)
        ensures
            remembered(old(self)@, key@, address@, r, final(self)@),
            old(self)@.wf() ==> final(self)@.wf(),
            final(self)@.local == old(self)@.local,
            match lookup(old(self)@.peers, key@) {
                None => !r && final(self)@ == old(self)@,
                Some(p) => if p.address matches Some(a) && a@ == address@ {
                    !r && final(self)@ == old(self)@
                } else {
                    r && final(self)@.peers == old(self)@.peers.update(
                        first_index(old(self)@.peers, key@),
                        PairedPeer {
                            address: final(self)@.peers[first_index(old(self)@.peers, key@)].address,
                            ..p
                        },
                    ) && (final(self)@.peers[first_index(old(self)@.peers, key@)].address matches Some(a)
                        && a@ == address@)
                },
            },
    {
        let i = match self.find(key) {
            Some(i) => i,
            None => {
                return false;
            },
        };
        let same = match &self.peers[i].address {
            Some(a) => str_eq(a.as_str(), address),
            None => false,
        };
        if same {
            return false;
        }
        let ghost before = self@;
        let mut peer = self.peers[i].clone();
        peer.address = Some(String::from_str(address));
        self.peers.set(i, peer);
        proof {
            assert(remembered(before, key@, address@, true, self@));
            if before.wf() {
                lemma_remember_keeps_wf(before, key@, address@, true, self@);
            }
        }
        true
    }

    /// Where a peer was last reached, if anywhere.
    pub fn address(&self, key: &PeerKey) -> (r: Option<&str>)
        ensures
            match lookup(self@.peers, key@) {
                Some(p) => match p.address {
                    Some(a) => r matches Some(s) && s@ == a@,
                    None => r is None,
                },
                None => r is None,
            },
    {
        match self.get(key) {
            Some(p) => match &p.address {
                Some(a) => Some(a.as_str()),
                None => None,
            },
            None => None,
        }
    }

    /// The single peer this machine trusts, when there is exactly one.
    pub fn only_peer(&self) -> (r: Option<&PairedPeer>)
        ensures
            self@.peers.len() == 1 ==> r == Some(&self@.peers[0]),
            self@.peers.len() != 1 ==> r is None,
    {
        if self.peers.len() == 1 {
            Some(&self.peers[0])
        } else {
            None
        }
    }

    /// What a peer is allowed to do, or nothing at all if it is not paired.
    pub fn permissions(&self, key: &PeerKey) -> (r: Permissions)
        ensures
            r == match lookup(self@.peers, key@) {
                Some(p) => p.permissions,
                None => no_permissions(),
            },
    {
        match self.get(key) {
            Some(p) => p.permissions,
            None => Permissions::default(),
        }
    }

    /// Grant or revoke one permission for one peer. `Ok(false)` means the peer is not
    /// paired; an unknown name is refused and changes nothing.
    pub fn set_permission(&mut self, key: &PeerKey, name: &str, allowed: bool) -> (r: Result<bool, UnknownPermission>)
        ensures
            permission_set(old(self)@, key@, name@, allowed, r, final(self)@),
            old(self)@.wf() ==> final(self)@.wf(),
            final(self)@.local == old(self)@.local,
            match lookup(old(self)@.peers, key@) {
                None => r == Ok::<bool, UnknownPermission>(false) && final(self)@ == old(self)@,
                Some(p) => match set_named_spec(p.permissions, name@, allowed) {
                    None => r matches Err(e) && e.0@ == name@ && final(self)@ == old(self)@,
                    Some(np) => r == Ok::<bool, UnknownPermission>(true) && final(self)@.peers
                        == old(self)@.peers.update(
                        first_index(old(self)@.peers, key@),
                        PairedPeer { permissions: np, ..p },
                    ),
                },
            },
    {
        let i = match self.find(key) {
            Some(i) => i,
            None => {
                return Ok(false);
            },
        };
        let mut peer = self.peers[i].clone();
        if !peer.permissions.set_named(name, allowed) {
            return Err(UnknownPermission(String::from_str(name)));
        }
        let ghost before = self@;
        self.peers.set(i, peer);
        let r = Ok(true);
        proof {
            assert(permission_set(before, key@, name@, allowed, r, self@));
            if before.wf() {
                lemma_permission_keeps_wf(before, key@, name@, allowed, r, self@);
            }
        }
        r
    }

    /// The first pinned peer whose derived device id is `owner`: the peer that a
    /// verified answer labelled with `owner` came from.
    pub fn owner_key(&self, owner: DeviceId) -> (r: Option<PeerKey>)
        ensures
            r == owner_of(self@.peers, owner),
            r is None <==> forall|j: int| 0 <= j < self@.peers.len() ==> key_device_id(#[trigger] self@.peers[j].key@) != owner,
            r matches Some(k) ==> exists|j: int| 0 <= j < self@.peers.len() && #[trigger] self@.peers[j].key == k
                && key_device_id(k@) == owner
                && forall|m: int| 0 <= m < j ==> key_device_id(#[trigger] self@.peers[m].key@) != owner,
    {
        let mut i: usize = 0;
        assert(self.peers@.subrange(0, self.peers@.len() as int) =~= self.peers@);
        while i < self.peers.len()
            invariant
                i <= self.peers@.len(),
                forall|m: int| 0 <= m < i ==> key_device_id(#[trigger] self.peers@[m].key@) != owner,
                owner_of(self.peers@, owner) == owner_of(self.peers@.subrange(i as int, self.peers@.len() as int), owner),
            decreases self.peers@.len() - i,
        {
            let id = self.peers[i].key.device_id();
            let ghost rest = self.peers@.subrange(i as int, self.peers@.len() as int);
            assert(rest[0] == self.peers@[i as int]);
            if id == owner {
                return Some(self.peers[i].key);
            }
            assert(rest.drop_first() =~= self.peers@.subrange(i + 1, self.peers@.len() as int));
            i = i + 1;
        }
        None
    }

    /// Note where a peer was reached, identified by the owner label on the first item it
    /// answered with. Returns whether the store changed and should be saved; nothing
    /// changes when the answer was empty or its owner is not a pinned peer.
    pub fn remember_where(&mut self, owner: Option<DeviceId>, address: &str) -> (r: bool)
        ensures
            final(self)@.local == old(self)@.local,
            owner is None ==> !r && final(self)@ == old(self)@,
            owner matches Some(o) ==> match owner_of(old(self)@.peers, o) {
                None => !r && final(self)@ == old(self)@,
                Some(k) => remembered(old(self)@, k@, address@, r, final(self)@),
            },
            (owner matches Some(o) && forall|j: int| 0 <= j < old(self)@.peers.len() ==> key_device_id(
                #[trigger] old(self)@.peers[j].key@,
            ) != o) ==> !r && final(self)@ == old(self)@,
            r ==> exists|j: int| 0 <= j < old(self)@.peers.len() && (owner matches Some(o) && key_device_id(
                #[trigger] old(self)@.peers[j].key@,
            ) == o) && (final(self)@.peers[j].address matches Some(a) && a@ == address@),
    {
        let o = match owner {
            Some(o) => o,
            None => return false,
        };
        let key = match self.owner_key(o) {
            Some(k) => k,
            None => return false,
        };
        proof {
            lemma_first_index(self@.peers, key@);
        }
        self.remember_address(&key, address)
    }


    /// Revoke trust: every entry under `key` is removed. Returns whether anything was.
    pub fn forget(&mut self, key: &PeerKey) -> (r: bool)
        ensures
            final(self)@.local == old(self)@.local,
            final(self)@.peers == without_key(old(self)@.peers, key@),
            r == (lookup(old(self)@.peers, key@) is Some),
            old(self)@.wf() ==> final(self)@.wf(),
            lookup(final(self)@.peers, key@) is None,
    {
        let ghost before = self@;
        let ghost old_peers = self.peers@;
        let old_len = self.peers.len();
        let ghost keep = not_under(key@);
        proof {
            lemma_first_index(old_peers, key@);
        }
        let mut i: usize = 0;
        let mut j: usize = 0;
        let mut removed = false;
        while i < self.peers.len()
            invariant
                j <= old_peers.len(),
                old_len == old_peers.len(),
                self.peers@ == old_peers.subrange(0, j as int).filter(keep) + old_peers.subrange(
                    j as int,
                    old_peers.len() as int,
                ),
                i == old_peers.subrange(0, j as int).filter(keep).len(),
                self.local == old(self).local,
                removed == exists|k: int| 0 <= k < j && #[trigger] old_peers[k].key@ == key@,
                keep == (|p: PairedPeer| p.key@ != key@),
            decreases old_peers.len() - j,
        {
            reveal_with_fuel(Seq::<_>::filter, 1);
            let ghost before = self.peers@;
            proof {
                assert(self.peers@.len() == i + (old_peers.len() - j));
                assert(old_peers.subrange(j as int, old_peers.len() as int)[0] == old_peers[j as int]);
                assert(self.peers@[i as int] == old_peers[j as int]);
                assert(old_peers.subrange(0, j + 1).drop_last() =~= old_peers.subrange(0, j as int));
            }
            if self.peers[i].key.same(key) {
                self.peers.remove(i);
                removed = true;
                proof {
                    assert(self.peers@ =~= old_peers.subrange(0, j + 1).filter(keep) + old_peers.subrange(
                        j + 1,
                        old_peers.len() as int,
                    ));
                }
            } else {
                proof {
                    assert(self.peers@ =~= old_peers.subrange(0, j + 1).filter(keep) + old_peers.subrange(
                        j + 1,
                        old_peers.len() as int,
                    ));
                }
                i = i + 1;
            }
            j = j + 1;
        }
        proof {
            assert(old_peers.subrange(0, old_peers.len() as int) =~= old_peers);
            assert(old_peers.subrange(old_peers.len() as int, old_peers.len() as int) =~= Seq::<PairedPeer>::empty());
            assert(self.peers@ =~= old_peers.filter(keep));
            if before.wf() {
                lemma_forget_keeps_wf(before, key@);
                assert(self@ == (PeerStoreView {
                    local: before.local,
                    peers: without_key(before.peers, key@),
                }));
            }
            lemma_forget_then_untrusted(old_peers, *key);
        }
        removed
    }

    /// The store a read of the peers file gives, from the file's schema version and
    /// entries: `None` for a newer schema than this build understands (the caller sets
    /// the file aside and trusts nobody); otherwise the store, and whether the entries
    /// were migrated from v1, which grants every peer full access, as pairing meant then.
    pub fn restore(local: PeerKey, version: u32, peers: Vec<PairedPeer>) -> (r: Option<(PeerStore, bool)>)
        ensures
            version > PEERS_VERSION ==> r is None,
            version <= PEERS_VERSION ==> (r matches Some((s, migrated)) && s@.local == local
                && migrated == (version < PEERS_VERSION) && s@.peers.len() == peers@.len()
                && forall|i: int| 0 <= i < peers@.len() ==> #[trigger] s@.peers[i] == (if version < 2 {
                    PairedPeer { permissions: all_permissions(), ..peers@[i] }
                } else {
                    peers@[i]
                })),
    {
        if version > PEERS_VERSION {
            return None;
        }
        let mut peers = peers;
        let migrated = version < PEERS_VERSION;
        if version < 2 {
            let ghost orig = peers@;
            let mut i: usize = 0;
            while i < peers.len()
                invariant
                    i <= peers@.len(),
                    peers@.len() == orig.len(),
                    forall|k: int| 0 <= k < i ==> #[trigger] peers@[k] == (PairedPeer { permissions: all_permissions(), ..orig[k] }),
                    forall|k: int| i <= k < peers@.len() ==> #[trigger] peers@[k] == orig[k],
                decreases peers@.len() - i,
            {
                let mut p = peers[i].clone();
                p.permissions = Permissions::all();
                peers.set(i, p);
                i = i + 1;
            }
        }
        Some((PeerStore { local, peers }, migrated))
    }
}

/// Pinning under a usable name leaves the peer trusted, whatever the outcome.
pub proof fn lemma_pin_then_trusted(old_peers: Seq<PairedPeer>, new_peers: Seq<PairedPeer>, key: PeerKey, p: PairedPeer)
    requires
        lookup(old_peers, key@) is None ==> new_peers == old_peers.push(p) && p.key == key,
        lookup(old_peers, key@) matches Some(q) ==> new_peers == old_peers
            || new_peers == old_peers.update(first_index(old_peers, key@), PairedPeer { name: p.name, ..q }),
    ensures
        lookup(new_peers, key@) is Some,
{
    lemma_first_index(old_peers, key@);
    lemma_first_index(new_peers, key@);
    if lookup(old_peers, key@) is None {
        assert(new_peers[old_peers.len() as int].key@ == key@);
    } else {
        let i = first_index(old_peers, key@);
        assert(new_peers[i].key@ == key@);
    }
}

/// The entries left once every entry under `key` is removed, in their order.
pub open spec fn without_key(peers: Seq<PairedPeer>, key: Seq<u8>) -> Seq<PairedPeer> {
    peers.filter(not_under(key))
}

/// Whether an entry is under some other key than `key`.
pub open spec fn not_under(key: Seq<u8>) -> spec_fn(PairedPeer) -> bool {
    |p: PairedPeer| p.key@ != key
}

/// After `forget`, the key is no longer trusted.
pub proof fn lemma_forget_then_untrusted(peers: Seq<PairedPeer>, key: PeerKey)
    ensures
        lookup(without_key(peers, key@), key@) is None,
{
    let f = without_key(peers, key@);
    lemma_first_index(f, key@);
    assert forall|j: int| 0 <= j < f.len() implies #[trigger] f[j].key@ != key@ by {
        assert(not_under(key@)(f[j]));
    }
}

/// Pinning keeps every key pinned at most once.
pub proof fn lemma_pin_keeps_keys_unique(old_peers: Seq<PairedPeer>, new_peers: Seq<PairedPeer>, key: PeerKey, p: PairedPeer)
    requires
        unique_keys(old_peers),
        lookup(old_peers, key@) is None ==> new_peers == old_peers.push(p) && p.key == key,
        lookup(old_peers, key@) matches Some(q) ==> new_peers == old_peers
            || new_peers == old_peers.update(first_index(old_peers, key@), PairedPeer { name: p.name, ..q }),
    ensures
        unique_keys(new_peers),
{
    lemma_first_index(old_peers, key@);
    if lookup(old_peers, key@) is None {
        assert forall|i: int, j: int|
            0 <= i < new_peers.len() && 0 <= j < new_peers.len() && i != j implies #[trigger] new_peers[i].key@
            != #[trigger] new_peers[j].key@ by {
            if i == old_peers.len() {
                assert(old_peers[j].key@ != key@);
            } else if j == old_peers.len() {
                assert(old_peers[i].key@ != key@);
            } else {
                assert(new_peers[i] == old_peers[i]);
                assert(new_peers[j] == old_peers[j]);
            }
        }
    } else {
        let k = first_index(old_peers, key@);
        assert forall|i: int, j: int|
            0 <= i < new_peers.len() && 0 <= j < new_peers.len() && i != j implies #[trigger] new_peers[i].key@
            != #[trigger] new_peers[j].key@ by {
            assert(new_peers[i].key == old_peers[i].key);
            assert(new_peers[j].key == old_peers[j].key);
        }
    }
}

/// Pinning keeps a store well formed: the key it adds is not the local one and not
/// already there, and the name it stores is trimmed and non-empty.
pub proof fn lemma_pin_keeps_wf(
    old: PeerStoreView,
    key: PeerKey,
    name: Seq<char>,
    now: u64,
    r: Result<PinOutcome, PinError>,
    new: PeerStoreView,
)
    requires
        old.wf(),
        pinned(old, key, name, now, r, new),
    ensures
        new.wf(),
{
    lemma_first_index(old.peers, key@);
    lemma_trim_is_trimmed(name);
    if key@ != old.local@ && trim(name).len() > 0 {
        match lookup(old.peers, key@) {
            None => {
                let p = new.peers.last();
                lemma_pin_keeps_keys_unique(old.peers, new.peers, key, p);
                assert forall|i: int| 0 <= i < new.peers.len() implies peer_ok(new.local, #[trigger] new.peers[i]) by {
                    if i < old.peers.len() {
                        assert(new.peers[i] == old.peers[i]);
                    }
                }
            },
            Some(q) => {
                if q.name@ != trim(name) {
                    let k = first_index(old.peers, key@);
                    let p = new.peers[k];
                    lemma_pin_keeps_keys_unique(old.peers, new.peers, key, p);
                    assert forall|i: int| 0 <= i < new.peers.len() implies peer_ok(new.local, #[trigger] new.peers[i]) by {
                        if i != k {
                            assert(new.peers[i] == old.peers[i]);
                        } else {
                            assert(peer_ok(old.local, old.peers[k]));
                        }
                    }
                }
            },
        }
    }
}

/// Recording an address keeps a store well formed.
pub proof fn lemma_remember_keeps_wf(old: PeerStoreView, key: Seq<u8>, address: Seq<char>, r: bool, new: PeerStoreView)
    requires
        old.wf(),
        remembered(old, key, address, r, new),
    ensures
        new.wf(),
{
    lemma_first_index(old.peers, key);
    if lookup(old.peers, key) is Some && new != old {
        let k = first_index(old.peers, key);
        assert forall|i: int, j: int|
            0 <= i < new.peers.len() && 0 <= j < new.peers.len() && i != j implies #[trigger] new.peers[i].key@
            != #[trigger] new.peers[j].key@ by {
            assert(new.peers[i].key == old.peers[i].key);
            assert(new.peers[j].key == old.peers[j].key);
        }
        assert forall|i: int| 0 <= i < new.peers.len() implies peer_ok(new.local, #[trigger] new.peers[i]) by {
            assert(peer_ok(old.local, old.peers[i]));
        }
    }
}

/// Granting or revoking a permission keeps a store well formed.
pub proof fn lemma_permission_keeps_wf(
    old: PeerStoreView,
    key: Seq<u8>,
    name: Seq<char>,
    allowed: bool,
    r: Result<bool, UnknownPermission>,
    new: PeerStoreView,
)
    requires
        old.wf(),
        permission_set(old, key, name, allowed, r, new),
    ensures
        new.wf(),
{
    lemma_first_index(old.peers, key);
    if lookup(old.peers, key) is Some && new != old {
        assert forall|i: int, j: int|
            0 <= i < new.peers.len() && 0 <= j < new.peers.len() && i != j implies #[trigger] new.peers[i].key@
            != #[trigger] new.peers[j].key@ by {
            assert(new.peers[i].key == old.peers[i].key);
            assert(new.peers[j].key == old.peers[j].key);
        }
        assert forall|i: int| 0 <= i < new.peers.len() implies peer_ok(new.local, #[trigger] new.peers[i]) by {
            assert(peer_ok(old.local, old.peers[i]));
        }
    }
}

/// Forgetting keeps a store well formed: what is left is a subsequence of what was there.
pub proof fn lemma_forget_keeps_wf(old: PeerStoreView, key: Seq<u8>)
    requires
        old.wf(),
    ensures
        (PeerStoreView { local: old.local, peers: without_key(old.peers, key) }).wf(),
    decreases old.peers.len(),
{
    let pred = not_under(key);
    reveal_with_fuel(Seq::<_>::filter, 1);
    if old.peers.len() > 0 {
        let d = old.peers.drop_last();
        let prev = PeerStoreView { local: old.local, peers: d };
        assert(prev.wf()) by {
            assert forall|i: int, j: int|
                0 <= i < d.len() && 0 <= j < d.len() && i != j implies #[trigger] d[i].key@ != #[trigger] d[j].key@ by {
                assert(d[i] == old.peers[i] && d[j] == old.peers[j]);
            }
            assert forall|i: int| 0 <= i < d.len() implies peer_ok(prev.local, #[trigger] d[i]) by {
                assert(d[i] == old.peers[i]);
            }
        }
        lemma_forget_keeps_wf(prev, key);
        let f = d.filter(pred);
        let last = old.peers.last();
        if pred(last) {
            let g = f.push(last);
            assert(old.peers.filter(pred) == g);
            assert forall|i: int| 0 <= i < f.len() implies #[trigger] f[i].key@ != last.key@ by {
                assert(f.contains(f[i]));
                d.lemma_filter_contains_rev(pred, f[i]);
                let m = choose|m: int| 0 <= m < d.len() && d[m] == f[i];
                assert(old.peers[m] == f[i]);
                assert(old.peers[old.peers.len() - 1] == last);
            }
            assert forall|i: int, j: int|
                0 <= i < g.len() && 0 <= j < g.len() && i != j implies #[trigger] g[i].key@ != #[trigger] g[j].key@ by {
                if i == f.len() {
                    assert(f[j].key@ != last.key@);
                } else if j == f.len() {
                    assert(f[i].key@ != last.key@);
                } else {
                    assert(g[i] == f[i] && g[j] == f[j]);
                }
            }
            assert forall|i: int| 0 <= i < g.len() implies peer_ok(old.local, #[trigger] g[i]) by {
                if i < f.len() {
                    assert(g[i] == f[i]);
                } else {
                    assert(old.peers[old.peers.len() - 1] == last);
                }
            }
        } else {
            assert(old.peers.filter(pred) == f);
        }
    }
}


/// The value of the permission called `name` (the last one for any other name).
pub open spec fn named_permission(p: Permissions, name: Seq<char>) -> bool {
    if name == "control-input"@ {
        p.control_input
    } else if name == "read-devices"@ {
        p.read_devices
    } else {
        p.list_windows
    }
}

/// Setting a permission by its name sets exactly that permission to the value asked for
/// and leaves the other two as they were; any other name is refused. Setting the old
/// value back undoes it.
pub proof fn lemma_set_named_sets_exactly(p: Permissions, name: Seq<char>, allowed: bool)
    ensures
        set_named_spec(p, "control-input"@, allowed) == Some(
            Permissions { control_input: allowed, read_devices: p.read_devices, list_windows: p.list_windows },
        ),
        set_named_spec(p, "read-devices"@, allowed) == Some(
            Permissions { control_input: p.control_input, read_devices: allowed, list_windows: p.list_windows },
        ),
        set_named_spec(p, "list-windows"@, allowed) == Some(
            Permissions { control_input: p.control_input, read_devices: p.read_devices, list_windows: allowed },
        ),
        name != "control-input"@ && name != "read-devices"@ && name != "list-windows"@ ==> set_named_spec(
            p,
            name,
            allowed,
        ) is None,
        set_named_spec(p, name, allowed) matches Some(q) ==> named_permission(q, name) == allowed
            && set_named_spec(q, name, named_permission(p, name)) == Some(p),
{
    reveal_strlit("control-input");
    reveal_strlit("read-devices");
    reveal_strlit("list-windows");
    assert("read-devices"@[0] != "control-input"@[0]);
    assert("list-windows"@[0] != "control-input"@[0]);
    assert("list-windows"@[0] != "read-devices"@[0]);
}

} // verus!

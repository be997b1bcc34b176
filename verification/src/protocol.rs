//! Protocol version negotiation and capability bits shared by both peers.

use vstd::prelude::*;

verus! {

/// Application-level protocol version. Bumped on any breaking wire change.
pub const PROTOCOL_VERSION: u32 = 1;

/// Hard upper bound on any single decoded control message.
pub const MAX_MESSAGE_BYTES: usize = 1 << 20;

/// Maximum number of forwarding hops an input or clipboard event may take.
pub const MAX_HOPS: u8 = 4;

/// Result of comparing two protocol versions during the Hello handshake.
#[derive(Debug, Clone, Copy, PartialEq, Eq, Structural)]
pub enum VersionCompat {
    /// Identical versions: full compatibility.
    Exact,
    /// Different versions; the caller must consult capability bits and may refuse.
    Divergent { local: u32, peer: u32 },
}

/// Compare the local protocol version against a peer-advertised version.
pub fn compare_version(peer: u32) -> (r: VersionCompat)
    ensures
        peer == PROTOCOL_VERSION ==> r == VersionCompat::Exact,
        peer != PROTOCOL_VERSION ==> r == (VersionCompat::Divergent { local: PROTOCOL_VERSION, peer }),
{
    if peer == PROTOCOL_VERSION {
        VersionCompat::Exact
    } else {
        VersionCompat::Divergent { local: PROTOCOL_VERSION, peer }
    }
}

/// Capability bits advertised in discovery and Hello. Unknown bits mean "unsupported".
#[derive(Debug, Clone, Copy, PartialEq, Eq, Structural)]
pub struct Capabilities {
    pub bits: u64,
}

impl Capabilities {
    pub const KVM_INPUT: u64 = 1;
    pub const WINDOW_PROJECTION: u64 = 2;
    pub const CLIPBOARD_TEXT: u64 = 4;
    pub const FILE_TRANSFER: u64 = 8;

    /// No capabilities at all.
    pub fn none() -> (r: Self)
        ensures
            r.bits == 0,
    {
        Capabilities { bits: 0 }
    }

    /// These capabilities, plus every bit of `bit`.
    pub fn with(self, bit: u64) -> (r: Self)
        ensures
            r.bits == self.bits | bit,
    {
        Capabilities { bits: self.bits | bit }
    }

    /// Whether every bit of `bit` is advertised.
    pub fn has(&self, bit: u64) -> (r: bool)
        ensures
            r == (self.bits & bit == bit),
    {
        self.bits & bit == bit
    }
}

impl Default for Capabilities {
    fn default() -> (r: Self)
        ensures
            r.bits == 0,
    {
        Capabilities { bits: 0 }
    }
}

/// Adding a capability makes it advertised, and keeps every capability already advertised.
pub proof fn lemma_with_grants(c: Capabilities, bit: u64, other: u64)
    ensures
        (c.bits | bit) & bit == bit,
        (c.bits & other == other) ==> ((c.bits | bit) & other == other),
{
    let b = c.bits;
    assert((b | bit) & bit == bit) by (bit_vector);
    assert((b & other == other) ==> ((b | bit) & other == other)) by (bit_vector);
}

/// A capability set that was built from nothing advertises only what was added: a bit
/// that no `with` named is not advertised.
pub proof fn lemma_unknown_bits_are_unsupported(bit: u64, other: u64)
    requires
        other != 0,
        bit & other == 0,
    ensures
        !((0u64 | bit) & other == other),
{
    assert(other != 0 && bit & other == 0 ==> !((0u64 | bit) & other == other)) by (bit_vector);
}

} // verus!

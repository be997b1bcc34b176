//! Strongly-typed identifiers, each holding the 128 bits of a uuid.
//!
//! Newtypes rather than bare integers so that a `DeviceId` can never be used where a
//! `SessionId` is expected.

use vstd::prelude::*;

use crate::bytes::{be_u128, be_value};

verus! {

/// Whether sixteen bytes are labelled as a random (version 4, RFC 4122 variant) uuid:
/// the high nibble of byte 6 is 4, and the top two bits of byte 8 are `10`.
pub open spec fn is_v4_uuid(bytes: Seq<u8>) -> bool {
    &&& bytes.len() == 16
    &&& bytes[6] / 16 == 4
    &&& bytes[8] / 64 == 2
}

/// Whether 128 bits are a random uuid read big-endian, the way a uuid packs its bytes.
pub open spec fn is_v4_bits(bits: u128) -> bool {
    exists|b: Seq<u8>| #[trigger] is_v4_uuid(b) && be_value(b) == bits
}

/// `uuid::Uuid::new_v4`, as its sixteen bytes. The bytes are random; all that is stated
/// is the version and variant labelling that `new_v4` masks into them.
#[verifier::external_body]
pub(crate) fn random_uuid_bytes() -> (r: [u8; 16])
    ensures
        is_v4_uuid(r@),
{
    *uuid::Uuid::new_v4().as_bytes()
}

/// 128 fresh random bits, read big-endian from a version-4 uuid as the uuid itself
/// packs them.
fn random_uuid_bits() -> (r: u128)
    ensures
        is_v4_bits(r),
{
    let bytes = random_uuid_bytes();
    let r = be_u128(&bytes);
    assert(bytes@.subrange(0, 16) =~= bytes@);
    assert(is_v4_uuid(bytes@) && be_value(bytes@) == r);
    r
}

/// Persistent identity of a paired device.
#[derive(Debug, Clone, Copy, PartialEq, Eq, Hash, PartialOrd, Ord, Structural)]
pub struct DeviceId(pub u128);

/// One authenticated control session between two devices.
#[derive(Debug, Clone, Copy, PartialEq, Eq, Hash, PartialOrd, Ord, Structural)]
pub struct SessionId(pub u128);

/// One input lease.
#[derive(Debug, Clone, Copy, PartialEq, Eq, Hash, PartialOrd, Ord, Structural)]
pub struct LeaseId(pub u128);

/// One projection (a source window projected to one destination).
#[derive(Debug, Clone, Copy, PartialEq, Eq, Hash, PartialOrd, Ord, Structural)]
pub struct ProjectionId(pub u128);

/// One input or clipboard event, used for de-duplication and loop prevention.
#[derive(Debug, Clone, Copy, PartialEq, Eq, Hash, PartialOrd, Ord, Structural)]
pub struct EventId(pub u128);

impl DeviceId {
    /// A fresh random id: a version-4 uuid.
    pub fn new() -> (r: Self)
        ensures
            is_v4_bits(r.0),
    {
        DeviceId(random_uuid_bits())
    }

    pub fn from_u128(bits: u128) -> (r: Self)
        ensures
            r.0 == bits,
    {
        DeviceId(bits)
    }

    pub fn as_u128(&self) -> (r: u128)
        ensures
            r == self.0,
    {
        self.0
    }
}

impl SessionId {
    /// A fresh random id: a version-4 uuid.
    pub fn new() -> (r: Self)
        ensures
            is_v4_bits(r.0),
    {
        SessionId(random_uuid_bits())
    }
}

impl LeaseId {
    /// A fresh random id: a version-4 uuid.
    pub fn new() -> (r: Self)
        ensures
            is_v4_bits(r.0),
    {
        LeaseId(random_uuid_bits())
    }
}

impl ProjectionId {
    /// A fresh random id: a version-4 uuid.
    pub fn new() -> (r: Self)
        ensures
            is_v4_bits(r.0),
    {
        ProjectionId(random_uuid_bits())
    }
}

impl EventId {
    /// A fresh random id: a version-4 uuid.
    pub fn new() -> (r: Self)
        ensures
            is_v4_bits(r.0),
    {
        EventId(random_uuid_bits())
    }

    pub fn from_u128(bits: u128) -> (r: Self)
        ensures
            r.0 == bits,
    {
        EventId(bits)
    }
}

} // verus!

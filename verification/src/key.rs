//! This machine's Ed25519 identity, and the public half of a peer's.
//!
//! The device id is a function of the public key: a device cannot present an id it
//! does not hold the private key for.

use vstd::prelude::*;
use vstd::string::StringSliceAdditionalSpecFns;

use crate::bytes::{append_bytes, be_u128, be_value};
use crate::crypto::{
    pkcs8_document, ed25519_point_decodes, ed25519_public, generate_secret, pkcs8_der_of,
    public_key_of, sha256, sha256_digest, verifying_key_from_bytes, point_weakness, ed25519_point_weak,
};
use crate::hex::{self, hex_decode, hex_encode};
use crate::ids::DeviceId;
use crate::text::push_char;

verus! {

/// Domain separation: every digest in this crate is prefixed with its own label.
pub const DEVICE_ID_LABEL: &'static str = "ultidesk-device-id-v1";
pub const FINGERPRINT_LABEL: &'static str = "ultidesk-fingerprint-v1";

/// The public half of a device identity: a raw Ed25519 verifying key.
///
/// Ordered (byte-wise) so that two peers sort a pair of keys identically.
#[derive(Debug, Clone, Copy, PartialEq, Eq, Hash, PartialOrd, Ord)]
pub struct PeerKey([u8; 32]);

impl View for PeerKey {
    type V = Seq<u8>;

    closed spec fn view(&self) -> Seq<u8> {
        self.0@
    }
}

/// The 16 bytes of the derived device id: the digest's first half, labelled as an
/// RFC 4122 version-8 uuid.
pub open spec fn device_id_bytes(key: Seq<u8>) -> Seq<u8> {
    let d = sha256_digest(DEVICE_ID_LABEL.spec_bytes() + key).subrange(0, 16);
    d.update(6, ((d[6] & 0x0f) | 0x80) as u8).update(8, ((d[8] & 0x3f) | 0x80) as u8)
}

/// The upper-case hex digit for a value below 16.
pub open spec fn upper_nibble_char(n: u8) -> char {
    if n < 10 {
        ((48 + n) as u8) as char
    } else {
        ((65 + n - 10) as u8) as char
    }
}

/// The upper-case hex text of `bytes`, high nibble first.
pub open spec fn upper_hex(bytes: Seq<u8>) -> Seq<char> {
    Seq::new(
        2 * bytes.len(),
        |i: int| if i % 2 == 0 {
            upper_nibble_char(bytes[i / 2] / 16)
        } else {
            upper_nibble_char(bytes[i / 2] % 16)
        },
    )
}

/// Twenty hex digits in five groups of four joined by `-`.
pub open spec fn grouped(h: Seq<char>) -> Seq<char> {
    Seq::new(24, |p: int| if p % 5 == 4 { '-' } else { h[p - p / 5] })
}

/// The fingerprint of a key: the first ten bytes of its labelled digest, as grouped
/// upper-case hex.
pub open spec fn fingerprint_text(key: Seq<u8>) -> Seq<char> {
    grouped(upper_hex(sha256_digest(FINGERPRINT_LABEL.spec_bytes() + key).subrange(0, 10)))
}

fn upper_nibble(n: u8) -> (c: char)
    requires
        n < 16,
    ensures
        c == upper_nibble_char(n),
{
    if n <= 9 {
        (48u8 + n) as char
    } else {
        (65u8 + n - 10) as char
    }
}

/// The 32 bytes of a 32-byte vector, as an array.
#[verifier::rlimit(40)]
fn array32(bytes: &Vec<u8>) -> (a: [u8; 32])
    requires
        bytes@.len() == 32,
    ensures
        a@ == bytes@,
{
    let a: [u8; 32] = [
        bytes[0], bytes[1], bytes[2], bytes[3], bytes[4], bytes[5], bytes[6], bytes[7],
        bytes[8], bytes[9], bytes[10], bytes[11], bytes[12], bytes[13], bytes[14], bytes[15],
        bytes[16], bytes[17], bytes[18], bytes[19], bytes[20], bytes[21], bytes[22], bytes[23],
        bytes[24], bytes[25], bytes[26], bytes[27], bytes[28], bytes[29], bytes[30], bytes[31],
    ];
    assert(a@ =~= bytes@);
    a
}

impl PeerKey {
    pub fn from_bytes(bytes: [u8; 32]) -> (r: Self)
        ensures
            r@ == bytes@,
    {
        PeerKey(bytes)
    }

    pub fn as_bytes(&self) -> (r: &[u8; 32])
        ensures
            r@ == self@,
    {
        &self.0
    }

    /// Every key is 32 bytes.
    pub proof fn lemma_len(k: PeerKey)
        ensures
            k@.len() == 32,
    {
    }

    /// Whether two keys are the same 32 bytes.
    pub fn same(&self, other: &PeerKey) -> (r: bool)
        ensures
            r == (self@ == other@),
    {
        let mut i: usize = 0;
        while i < 32
            invariant
                i <= 32,
                self.0@.len() == 32,
                other.0@.len() == 32,
                forall|j: int| 0 <= j < i ==> self.0@[j] == other.0@[j],
            decreases 32 - i,
        {
            if self.0[i] != other.0[i] {
                return false;
            }
            i = i + 1;
        }
        assert(self.0@ =~= other.0@);
        true
    }

    /// Parse the 64-character hex form written to disk and shown in logs.
    pub fn parse(text: &str) -> (r: Option<Self>)
        ensures
            match r {
                Some(k) => hex_decode(text.spec_bytes()) == Some(k@),
                None => !(hex_decode(text.spec_bytes()) matches Some(b) && b.len() == 32),
            },
    {
        let bytes = match hex::decode(text) {
            Some(b) => b,
            None => {
                return None;
            },
        };
        if bytes.len() != 32 {
            return None;
        }
        Some(PeerKey(array32(&bytes)))
    }

    /// The lower-case hex form (what `Display` shows).
    pub fn to_hex(&self) -> (r: String)
        ensures
            r@ == hex_encode(self@),
    {
        hex::encode(&self.0)
    }

    /// The key as a curve point, or `None` if these 32 bytes are not one this device
    /// should ever talk to: bytes that do not decode, and points of small order.
    pub fn verifying_key(&self) -> (r: Option<ed25519_dalek::VerifyingKey>)
        ensures
            r is Some <==> ed25519_point_decodes(self@) && !ed25519_point_weak(self@),
    {
        match point_weakness(&self.0) {
            Some(false) => {},
            _ => {
                return None;
            },
        }
        verifying_key_from_bytes(&self.0)
    }

    /// The routing id derived from this key, encoded as an RFC 4122 version-8 uuid.
    pub fn device_id(&self) -> (r: DeviceId)
        ensures
            r.0 == be_value(device_id_bytes(self@)),
    {
        let mut data: Vec<u8> = Vec::new();
        append_bytes(&mut data, DEVICE_ID_LABEL.as_bytes());
        append_bytes(&mut data, self.0.as_slice());
        let digest = sha256(data.as_slice());
        let mut bytes: Vec<u8> = Vec::new();
        let mut i: usize = 0;
        while i < 16
            invariant
                i <= 16,
                digest@.len() == 32,
                bytes@ == digest@.subrange(0, i as int),
            decreases 16 - i,
        {
            bytes.push(digest[i]);
            proof {
                assert(digest@.subrange(0, i + 1) =~= digest@.subrange(0, i as int).push(digest@[i as int]));
            }
            i = i + 1;
        }
        let b6 = (bytes[6] & 0x0f) | 0x80;
        bytes.set(6, b6);
        let b8 = (bytes[8] & 0x3f) | 0x80;
        bytes.set(8, b8);
        proof {
            assert(bytes@ =~= device_id_bytes(self@));
            assert(bytes@.subrange(0, 16) =~= bytes@);
        }
        DeviceId(be_u128(bytes.as_slice()))
    }

    /// A short form for a human to compare across two screens: 80 bits of the labelled
    /// digest, upper-case hex, in five groups of four.
    pub fn fingerprint(&self) -> (r: String)
        ensures
            r@ == fingerprint_text(self@),
    {
        let mut data: Vec<u8> = Vec::new();
        append_bytes(&mut data, FINGERPRINT_LABEL.as_bytes());
        append_bytes(&mut data, self.0.as_slice());
        let digest = sha256(data.as_slice());
        let ghost h = upper_hex(digest@.subrange(0, 10));
        let mut out = String::new();
        let mut p: usize = 0;
        while p < 24
            invariant
                p <= 24,
                digest@.len() == 32,
                h == upper_hex(digest@.subrange(0, 10)),
                out@ =~= grouped(h).subrange(0, p as int),
            decreases 24 - p,
        {
            if p % 5 == 4 {
                push_char(&mut out, '-');
            } else {
                let k = p - p / 5;
                let b = digest[k / 2];
                assert(b >> 4 == b / 16 && b & 0x0f == b % 16) by (bit_vector);
                if k % 2 == 0 {
                    push_char(&mut out, upper_nibble(b >> 4));
                } else {
                    push_char(&mut out, upper_nibble(b & 0x0f));
                }
                assert(grouped(h)[p as int] == h[k as int]);
            }
            p = p + 1;
        }
        proof {
            assert(grouped(h).subrange(0, 24) =~= grouped(h));
        }
        out
    }
}

/// This machine's key pair, held as its 32-byte secret seed. Holds the private key, so
/// it is deliberately not `Clone` and has no `Debug`.
pub struct Identity {
    secret: [u8; 32],
}

impl View for Identity {
    type V = Seq<u8>;

    /// The secret seed.
    closed spec fn view(&self) -> Seq<u8> {
        self.secret@
    }
}

impl Identity {
    /// Mint a new identity from the operating system's entropy source.
    pub fn generate() -> Self {
        Identity { secret: generate_secret() }
    }

    pub fn from_secret_bytes(secret: [u8; 32]) -> (r: Self)
        ensures
            r@ == secret@,
    {
        Identity { secret }
    }

    /// The private seed, for the store to persist.
    pub(crate) fn secret_bytes(&self) -> (r: [u8; 32])
        ensures
            r@ == self@,
    {
        self.secret
    }

    pub fn public(&self) -> (r: PeerKey)
        ensures
            r@ == ed25519_public(self@),
    {
        PeerKey(public_key_of(&self.secret))
    }

    pub fn device_id(&self) -> (r: DeviceId)
        ensures
            r.0 == be_value(device_id_bytes(ed25519_public(self@))),
    {
        self.public().device_id()
    }

    pub fn fingerprint(&self) -> (r: String)
        ensures
            r@ == fingerprint_text(ed25519_public(self@)),
    {
        self.public().fingerprint()
    }

    /// PKCS#8 DER, the form a TLS stack wants when it is handed a private key: the
    /// v2 document carrying this seed and its public key.
    pub fn to_pkcs8_der(&self) -> (r: Vec<u8>)
        ensures
            r@ == pkcs8_document(self@),
    {
        match pkcs8_der_of(&self.secret) {
            Some(d) => d,
            None => Vec::new(),
        }
    }
}

/// A key written as text (`to_hex`) parses back to the same key.
pub proof fn lemma_text_round_trip(k: PeerKey)
    ensures
        hex_decode(vstd::utf8::encode_utf8(hex_encode(k@))) == Some(k@),
        k@.len() == 32,
{
    let t = hex_encode(k@);
    assert(vstd::utf8::is_ascii_chars(t)) by {
        assert forall|i: int| 0 <= i < t.len() implies '\0' <= #[trigger] t[i] <= '\u{7f}' by {
            let b = k@[i / 2];
            assert(b / 16 < 16 && b % 16 < 16);
        }
    }
    vstd::utf8::is_ascii_chars_encode_utf8(t);
    assert(vstd::utf8::encode_utf8(t) =~= crate::hex::ascii_bytes(t));
    crate::hex::lemma_hex_round_trip(k@);
}

} // verus!

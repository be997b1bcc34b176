//! Keeping the identity across restarts: the identity file's location and the rules
//! that decide whether what is on disk is a usable identity. A damaged identity file is
//! never replaced; it is reported.

use vstd::prelude::*;
use vstd::string::StringSliceAdditionalSpecFns;

use crate::hex::{self, ascii_bytes, hex_decode, hex_encode, lemma_hex_round_trip};
use crate::key::Identity;
use crate::paths::{join, path_join};
use crate::text::str_eq;

verus! {

/// File name inside the configuration directory.
pub const IDENTITY_FILE: &'static str = "identity.json";

/// Schema version.
pub const IDENTITY_VERSION: u32 = 1;

/// The only key algorithm this build reads.
pub const ALGORITHM: &'static str = "ed25519";

/// Why an identity file on disk is not a usable identity.
#[derive(Debug, Clone, PartialEq, Eq)]
pub enum UnusableIdentity {
    /// Written by a newer build; refused rather than overwritten.
    NewerVersion(u32),
    /// A key for another algorithm.
    WrongAlgorithm(String),
    /// The secret key is not hex.
    NotHex,
    /// The secret key is not 32 bytes.
    WrongLength,
}

/// The identity file's path inside a configuration directory.
pub fn identity_path(dir: &str) -> (r: String)
    ensures
        r@ == path_join(dir@, IDENTITY_FILE@),
{
    join(dir, IDENTITY_FILE)
}

/// The identity the fields of an identity file hold, or why they hold none: a newer
/// schema, another algorithm, a key that is not hex, or a key that is not 32 bytes, in
/// that order of checking.
pub fn decode_identity_file(version: u32, algorithm: &str, secret_key: &str) -> (r: Result<Identity, UnusableIdentity>)
    ensures
        version > IDENTITY_VERSION ==> r == Err::<Identity, UnusableIdentity>(UnusableIdentity::NewerVersion(version)),
        version <= IDENTITY_VERSION && algorithm@ != ALGORITHM@ ==> (r matches Err(UnusableIdentity::WrongAlgorithm(a)) && a@ == algorithm@),
        version <= IDENTITY_VERSION && algorithm@ == ALGORITHM@ ==> match hex_decode(secret_key.spec_bytes()) {
            None => r == Err::<Identity, UnusableIdentity>(UnusableIdentity::NotHex),
            Some(b) => if b.len() == 32 {
                r matches Ok(id) && id@ == b
            } else {
                r == Err::<Identity, UnusableIdentity>(UnusableIdentity::WrongLength)
            },
        },
{
    if version > IDENTITY_VERSION {
        return Err(UnusableIdentity::NewerVersion(version));
    }
    if !str_eq(algorithm, ALGORITHM) {
        return Err(UnusableIdentity::WrongAlgorithm(String::from_str(algorithm)));
    }
    let bytes = match hex::decode(secret_key) {
        Some(b) => b,
        None => {
            return Err(UnusableIdentity::NotHex);
        },
    };
    if bytes.len() != 32 {
        return Err(UnusableIdentity::WrongLength);
    }
    let mut secret: [u8; 32] = [0u8; 32];
    let mut i: usize = 0;
    while i < 32
        invariant
            i <= 32,
            bytes@.len() == 32,
            secret@.len() == 32,
            forall|j: int| 0 <= j < i ==> secret@[j] == bytes@[j],
        decreases 32 - i,
    {
        secret[i] = bytes[i];
        i = i + 1;
    }
    assert(secret@ =~= bytes@);
    Ok(Identity::from_secret_bytes(secret))
}

/// The text an identity file stores its secret key as.
pub fn secret_key_text(identity: &Identity) -> (r: String)
    ensures
        r@ == hex_encode(identity@),
{
    hex::encode(identity.secret_bytes().as_slice())
}

/// What `save` writes, `load` reads back: the secret-key text written for any 32-byte
/// seed, stored with this build's version and algorithm, decodes to that same seed, so
/// [`decode_identity_file`] returns the identity that was saved.
pub proof fn lemma_identity_file_round_trip(seed: Seq<u8>)
    requires
        seed.len() == 32,
    ensures
        hex_decode(vstd::utf8::encode_utf8(hex_encode(seed))) == Some(seed),
{
    let t = hex_encode(seed);
    assert forall|i: int| 0 <= i < t.len() implies '\0' <= #[trigger] t[i] <= '\u{7f}' by {
        let b = seed[i / 2];
        assert(b / 16 < 16 && b % 16 < 16);
    }
    vstd::utf8::is_ascii_chars_encode_utf8(t);
    assert(vstd::utf8::encode_utf8(t) =~= ascii_bytes(t));
    lemma_hex_round_trip(seed);
}

} // verus!

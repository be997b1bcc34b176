//! The calls this crate makes into `sha2` and `ed25519-dalek`. Nothing here is proved:
//! each item states only what its outside function is documented to compute, by name.

use vstd::prelude::*;

use ed25519_dalek::pkcs8::EncodePrivateKey;
use sha2::Digest;

verus! {

/// The SHA-256 digest of a byte string.
pub uninterp spec fn sha256_digest(data: Seq<u8>) -> Seq<u8>;

/// The Ed25519 public key (compressed point) of a 32-byte secret seed.
pub uninterp spec fn ed25519_public(secret: Seq<u8>) -> Seq<u8>;

/// Whether 32 bytes decompress to a point on the Edwards curve.
pub uninterp spec fn ed25519_point_decodes(bytes: Seq<u8>) -> bool;

/// Whether the point 32 bytes decompress to has small order (a "weak" public key).
pub uninterp spec fn ed25519_point_weak(bytes: Seq<u8>) -> bool;

/// The DER bytes before the seed in an Ed25519 PKCS#8 v2 document (RFC 8410): the outer
/// SEQUENCE, version 1, the id-Ed25519 algorithm, and the nested OCTET STRING headers.
pub open spec fn pkcs8_prefix() -> Seq<u8> {
    seq![0x30u8, 0x51, 0x02, 0x01, 0x01, 0x30, 0x05, 0x06, 0x03, 0x2b, 0x65, 0x70, 0x04, 0x22, 0x04, 0x20]
}

/// The DER bytes between the seed and the public key: the `[1]` public-key BIT STRING
/// header with no unused bits.
pub open spec fn pkcs8_public_header() -> Seq<u8> {
    seq![0x81u8, 0x21, 0x00]
}

/// The PKCS#8 v2 document of a 32-byte Ed25519 seed, carrying the seed and its public key.
pub open spec fn pkcs8_document(secret: Seq<u8>) -> Seq<u8> {
    pkcs8_prefix() + secret + pkcs8_public_header() + ed25519_public(secret)
}

/// `sha2::Sha256::digest`: the 32-byte SHA-256 digest of `data`, a function of `data`
/// alone.
#[verifier::external_body]
pub(crate) fn sha256(data: &[u8]) -> (r: [u8; 32])
    ensures
        r@ == sha256_digest(data@),
{
    sha2::Sha256::digest(data).into()
}

/// `ed25519_dalek::SigningKey::from_bytes`, read back through `verifying_key().to_bytes()`:
/// the public key the secret seed determines.
#[verifier::external_body]
pub(crate) fn public_key_of(secret: &[u8; 32]) -> (r: [u8; 32])
    ensures
        r@ == ed25519_public(secret@),
{
    ed25519_dalek::SigningKey::from_bytes(secret).verifying_key().to_bytes()
}

/// `ed25519_dalek::SigningKey::generate` over the operating system's entropy source,
/// read back as its seed. The bytes are random: nothing is stated of them.
#[verifier::external_body]
pub(crate) fn generate_secret() -> [u8; 32] {
    ed25519_dalek::SigningKey::generate(&mut rand_core::OsRng).to_bytes()
}

/// `SigningKey::from_bytes` then `EncodePrivateKey::to_pkcs8_der`, as bytes. The key pair
/// is encoded as a PKCS#8 v2 `PrivateKeyInfo` with the public key present (ed25519
/// `KeypairBytes::to_pkcs8_der`, pkcs8 `PrivateKeyInfo`): an 83-byte structure of fixed
/// shape, so the DER encoder, which refuses only lengths past its limits, always succeeds.
#[verifier::external_body]
pub(crate) fn pkcs8_der_of(secret: &[u8; 32]) -> (r: Option<Vec<u8>>)
    ensures
        r is Some,
        r matches Some(d) ==> d@ == pkcs8_document(secret@),
{
    match ed25519_dalek::SigningKey::from_bytes(secret).to_pkcs8_der() {
        Ok(doc) => Some(doc.as_bytes().to_vec()),
        Err(_) => None,
    }
}

#[verifier::external_type_specification]
#[verifier::external_body]
pub struct ExVerifyingKey(ed25519_dalek::VerifyingKey);

/// `ed25519_dalek::VerifyingKey::from_bytes`: the key as a curve point, or `None` when the
/// 32 bytes do not decompress to one.
#[verifier::external_body]
pub(crate) fn verifying_key_from_bytes(bytes: &[u8; 32]) -> (r: Option<ed25519_dalek::VerifyingKey>)
    ensures
        r is Some <==> ed25519_point_decodes(bytes@),
{
    ed25519_dalek::VerifyingKey::from_bytes(bytes).ok()
}

/// `ed25519_dalek::VerifyingKey::from_bytes` then `VerifyingKey::is_weak`, read from the
/// 32 bytes: `None` when they do not decompress to a point, else whether that point has
/// small order. A function of the bytes alone.
#[verifier::external_body]
pub(crate) fn point_weakness(bytes: &[u8; 32]) -> (r: Option<bool>)
    ensures
        r is Some <==> ed25519_point_decodes(bytes@),
        r matches Some(w) ==> w == ed25519_point_weak(bytes@),
{
    match ed25519_dalek::VerifyingKey::from_bytes(bytes) {
        Ok(key) => Some(key.is_weak()),
        Err(_) => None,
    }
}

} // verus!

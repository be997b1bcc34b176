use sha2::{Digest, Sha256};
use ultidesk::key::{DEVICE_ID_LABEL, FINGERPRINT_LABEL};
use ed25519_dalek::pkcs8::DecodePrivateKey;
use ed25519_dalek::{SigningKey, VerifyingKey};
use ultidesk::hex;
use ultidesk::key::{Identity, PeerKey};
use ultidesk::store::secret_key_text;

fn uuid_of(id: ultidesk::ids::DeviceId) -> uuid::Uuid {
    uuid::Uuid::from_u128(id.as_u128())
}

#[test]
fn the_device_id_is_a_function_of_the_key() {
    let id = Identity::from_secret_bytes([7u8; 32]);
    let same = Identity::from_secret_bytes([7u8; 32]);
    assert_eq!(id.device_id(), same.device_id());
    let other = Identity::from_secret_bytes([8u8; 32]);
    assert_ne!(id.device_id(), other.device_id(), "a different key must not resolve to the same device");
}

#[test]
fn the_derived_uuid_is_labelled_as_derived() {
    let id = Identity::from_secret_bytes([3u8; 32]).device_id();
    assert_eq!(uuid_of(id).get_version_num(), 8);
    assert_eq!(uuid_of(id).get_variant(), uuid::Variant::RFC4122);
}

#[test]
fn the_fingerprint_and_the_device_id_do_not_share_a_digest() {
    let key = Identity::from_secret_bytes([5u8; 32]).public();
    let fingerprint_hex = key.fingerprint().replace('-', "").to_lowercase();
    let id_hex = hex::encode(uuid_of(key.device_id()).as_bytes());
    assert!(!id_hex.starts_with(&fingerprint_hex[..8]));
}

#[test]
fn the_fingerprint_is_grouped_and_stable() {
    let key = Identity::from_secret_bytes([1u8; 32]).public();
    let fp = key.fingerprint();
    assert_eq!(fp.len(), 24, "20 hex characters in 5 groups of 4");
    assert_eq!(fp.matches('-').count(), 4);
    assert_eq!(fp, key.fingerprint());
}

#[test]
fn a_peer_key_round_trips_through_text_and_json() {
    let key = Identity::generate().public();
    assert_eq!(PeerKey::parse(&key.to_hex()), Some(key));
}

#[test]
fn a_malformed_peer_key_is_refused_rather_than_padded() {
    assert_eq!(PeerKey::parse("00"), None, "too short");
    assert_eq!(PeerKey::parse(&"0".repeat(65)), None, "odd length");
    assert_eq!(PeerKey::parse("nonsense"), None);
}

#[test]
fn thirty_two_arbitrary_bytes_are_not_necessarily_a_public_key() {
    assert!(PeerKey::from_bytes([2u8; 32]).verifying_key().is_none());
    assert!(Identity::generate().public().verifying_key().is_some());
}

#[test]
fn a_small_order_key_is_refused_even_though_it_decodes() {
    let zero = PeerKey::from_bytes([0u8; 32]);
    assert!(VerifyingKey::from_bytes(zero.as_bytes()).is_ok());
    assert!(zero.verifying_key().is_none());
}

#[test]
fn the_pkcs8_export_round_trips_back_to_the_same_identity() {
    let id = Identity::generate();
    let der = id.to_pkcs8_der();
    let back = SigningKey::from_pkcs8_der(&der).unwrap();
    assert_eq!(hex::encode(&back.to_bytes()), secret_key_text(&id));
}

#[test]
fn the_public_key_is_the_one_ed25519_derives() {
    let secret = [11u8; 32];
    let id = Identity::from_secret_bytes(secret);
    let expected = SigningKey::from_bytes(&secret).verifying_key().to_bytes();
    assert_eq!(id.public().as_bytes(), &expected);
}

#[test]
fn a_key_reads_back_from_upper_case_text() {
    let key = Identity::from_secret_bytes([4u8; 32]).public();
    assert_eq!(PeerKey::parse(&key.to_hex().to_uppercase()), Some(key));
    assert_eq!(key.to_hex().len(), 64);
}

#[test]
fn the_identity_names_the_same_device_as_its_public_key() {
    let id = Identity::from_secret_bytes([6u8; 32]);
    assert_eq!(id.device_id(), id.public().device_id());
    assert_eq!(id.fingerprint(), id.public().fingerprint());
}

#[test]
fn the_fingerprint_is_the_labelled_digest_in_groups_of_four() {
    let key = Identity::from_secret_bytes([12u8; 32]).public();
    let mut hasher = Sha256::new();
    hasher.update(FINGERPRINT_LABEL.as_bytes());
    hasher.update(key.as_bytes());
    let digest = hasher.finalize();
    let text = hex::encode(&digest[..10]).to_uppercase();
    let groups: Vec<&str> = (0..5).map(|i| &text[i * 4..i * 4 + 4]).collect();
    assert_eq!(key.fingerprint(), groups.join("-"));
}

#[test]
fn the_device_id_is_the_labelled_digest_marked_as_version_eight() {
    let key = Identity::from_secret_bytes([13u8; 32]).public();
    let mut hasher = Sha256::new();
    hasher.update(DEVICE_ID_LABEL.as_bytes());
    hasher.update(key.as_bytes());
    let digest = hasher.finalize();
    let mut bytes = [0u8; 16];
    bytes.copy_from_slice(&digest[..16]);
    bytes[6] = (bytes[6] & 0x0f) | 0x80;
    bytes[8] = (bytes[8] & 0x3f) | 0x80;
    assert_eq!(key.device_id().as_u128(), u128::from_be_bytes(bytes));
}

#[test]
fn the_pkcs8_document_is_the_rfc_8410_layout() {
    let secret = [9u8; 32];
    let id = Identity::from_secret_bytes(secret);
    let mut expected: Vec<u8> = vec![
        0x30, 0x51, 0x02, 0x01, 0x01, 0x30, 0x05, 0x06, 0x03, 0x2b, 0x65, 0x70, 0x04, 0x22, 0x04, 0x20,
    ];
    expected.extend_from_slice(&secret);
    expected.extend_from_slice(&[0x81, 0x21, 0x00]);
    expected.extend_from_slice(id.public().as_bytes());
    assert_eq!(id.to_pkcs8_der(), expected);
}

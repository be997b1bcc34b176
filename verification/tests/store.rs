use ultidesk::key::Identity;
use ultidesk::store::{decode_identity_file, identity_path, secret_key_text, UnusableIdentity, ALGORITHM, IDENTITY_VERSION};

#[test]
fn a_saved_identity_reads_back_as_the_same_machine() {
    let identity = Identity::generate();
    let text = secret_key_text(&identity);
    let back = decode_identity_file(IDENTITY_VERSION, ALGORITHM, &text).unwrap();
    assert_eq!(back.public(), identity.public());
    assert_eq!(back.device_id(), identity.device_id());
}

#[test]
fn the_stored_secret_is_the_seed_in_hex() {
    let identity = Identity::from_secret_bytes([0x11u8; 32]);
    assert_eq!(secret_key_text(&identity), "11".repeat(32));
}

#[test]
fn a_newer_identity_file_is_refused_rather_than_overwritten() {
    assert_eq!(
        decode_identity_file(IDENTITY_VERSION + 1, "ed25519", &"11".repeat(32)).err(),
        Some(UnusableIdentity::NewerVersion(IDENTITY_VERSION + 1))
    );
}

#[test]
fn a_short_key_is_refused_rather_than_padded() {
    assert_eq!(decode_identity_file(1, "ed25519", "aabb").err(), Some(UnusableIdentity::WrongLength));
}

#[test]
fn another_algorithm_is_refused() {
    assert_eq!(
        decode_identity_file(1, "p256", &"22".repeat(32)).err(),
        Some(UnusableIdentity::WrongAlgorithm("p256".to_string()))
    );
}

#[test]
fn a_secret_that_is_not_hex_is_refused() {
    assert_eq!(decode_identity_file(1, "ed25519", &"zz".repeat(32)).err(), Some(UnusableIdentity::NotHex));
}

#[test]
fn the_version_is_checked_before_the_algorithm() {
    assert_eq!(decode_identity_file(9, "p256", "").err(), Some(UnusableIdentity::NewerVersion(9)));
}

#[test]
fn an_older_version_is_still_read() {
    let back = decode_identity_file(0, "ed25519", &"33".repeat(32)).unwrap();
    assert_eq!(back.public(), Identity::from_secret_bytes([0x33u8; 32]).public());
}

#[test]
fn the_identity_file_lives_in_the_config_directory() {
    assert_eq!(identity_path("/home/n/.config/ultidesk"), "/home/n/.config/ultidesk/identity.json");
}

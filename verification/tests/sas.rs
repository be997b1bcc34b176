use sha2::{Digest, Sha256};
use ultidesk::key::{Identity, PeerKey};
use ultidesk::sas::{pairing_code, SAS_DIGITS};

fn key(seed: u8) -> PeerKey {
    Identity::from_secret_bytes([seed; 32]).public()
}

#[test]
fn both_peers_compute_the_same_code_whichever_way_round_they_ask() {
    let (a, b) = (key(1), key(2));
    assert_eq!(
        pairing_code(&a, &b, b"channel"),
        pairing_code(&b, &a, b"channel"),
        "a role-dependent code would show two different numbers on the two screens"
    );
}

#[test]
fn a_substituted_key_changes_the_code() {
    let (a, b, attacker) = (key(1), key(2), key(3));
    assert_ne!(pairing_code(&a, &b, b"channel"), pairing_code(&a, &attacker, b"channel"));
}

#[test]
fn a_different_connection_gives_a_different_code() {
    let (a, b) = (key(1), key(2));
    assert_ne!(pairing_code(&a, &b, b"session-one"), pairing_code(&a, &b, b"session-two"));
}

#[test]
fn the_channel_binding_cannot_be_shifted_into_the_keys() {
    let (a, b) = (key(1), key(2));
    assert_ne!(pairing_code(&a, &b, b"ab"), pairing_code(&a, &b, b"a"));
}

#[test]
fn the_code_is_six_digits_in_two_groups() {
    let code = pairing_code(&key(4), &key(5), b"");
    assert_eq!(code.len(), 7, "{code}");
    assert_eq!(&code[3..4], " ");
    assert!(code.replace(' ', "").chars().all(|c| c.is_ascii_digit()));
}

#[test]
fn a_low_value_keeps_its_leading_zeros() {
    for seed in 0..40u8 {
        let code = pairing_code(&key(seed), &key(seed.wrapping_add(1)), b"");
        assert_eq!(code.replace(' ', "").len(), SAS_DIGITS as usize, "{code}");
    }
}

#[test]
fn the_code_is_stable_across_runs() {
    assert_eq!(pairing_code(&key(9), &key(10), b"cb"), pairing_code(&key(9), &key(10), b"cb"));
}

#[test]
fn the_code_is_the_labelled_digest_of_both_keys_and_the_binding() {
    let (a, b) = (key(1), key(2));
    let (first, second) = if a.as_bytes() <= b.as_bytes() { (a, b) } else { (b, a) };
    let mut hasher = Sha256::new();
    hasher.update(b"ultidesk-pairing-sas-v1");
    hasher.update(first.as_bytes());
    hasher.update(second.as_bytes());
    hasher.update((7u64).to_be_bytes());
    hasher.update(b"channel");
    let digest = hasher.finalize();
    let value = u64::from_be_bytes(digest[..8].try_into().unwrap()) % 1_000_000;
    let digits = format!("{value:06}");
    let expected = format!("{} {}", &digits[..3], &digits[3..]);
    assert_eq!(pairing_code(&a, &b, b"channel"), expected);
}

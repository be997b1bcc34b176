use ultidesk::hex::{decode, encode};

#[test]
fn round_trips_every_byte_value() {
    let all: Vec<u8> = (0..=255u8).collect();
    assert_eq!(decode(&encode(&all)).unwrap(), all);
}

#[test]
fn encodes_lower_case_and_decodes_either_case() {
    assert_eq!(encode(&[0xab, 0x0f]), "ab0f");
    assert_eq!(decode("AB0F").unwrap(), vec![0xab, 0x0f]);
}

#[test]
fn an_odd_length_is_rejected_rather_than_truncated() {
    assert_eq!(decode("abc"), None);
}

#[test]
fn a_non_hex_character_is_rejected() {
    assert_eq!(decode("zz"), None);
    assert_eq!(decode("ab cd"), None);
}

#[test]
fn nothing_encodes_to_nothing() {
    assert_eq!(encode(&[]), "");
    assert_eq!(decode(""), Some(Vec::new()));
}

#[test]
fn mixed_case_decodes_too() {
    assert_eq!(decode("aBcD"), Some(vec![0xab, 0xcd]));
}

#[test]
fn the_upper_case_form_of_an_encoding_decodes_back() {
    let all: Vec<u8> = (0..=255u8).collect();
    assert_eq!(decode(&encode(&all).to_uppercase()), Some(all));
}

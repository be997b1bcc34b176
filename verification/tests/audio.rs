use std::collections::VecDeque;

use ultidesk::audio::{
    decode_s16le, default_encoding, encode_s16le, queue_for_playback, take_frames, AudioFormat, AudioHeader,
    EncodingTag,
};

const CD: AudioFormat = AudioFormat { rate: 48_000, channels: 2 };

#[test]
fn partial_frames_are_not_counted() {
    assert_eq!(CD.frames_in(4), 1);
    assert_eq!(CD.frames_in(7), 1);
    assert_eq!(CD.frames_in(3), 0);
}

#[test]
fn decode_consumes_only_whole_frames_and_reports_how_many_bytes_it_used() {
    let mut out = Vec::new();
    let used = decode_s16le(&[1, 0, 2, 0, 3, 0], CD, &mut out);
    assert_eq!(used, 4, "must not consume a partial frame");
    assert_eq!(out, vec![1i16, 2i16]);
}

#[test]
fn decode_is_little_endian() {
    let mut out = Vec::new();
    decode_s16le(&[0x00, 0x01, 0x00, 0x01], CD, &mut out);
    assert_eq!(out, vec![256i16, 256i16]);
}

#[test]
fn decode_handles_an_empty_read() {
    let mut out = Vec::new();
    assert_eq!(decode_s16le(&[], CD, &mut out), 0);
    assert!(out.is_empty());
}

#[test]
fn implausible_formats_are_rejected_rather_than_played_as_noise() {
    let bad = AudioHeader::new(AudioFormat { rate: 3, channels: 2 });
    assert_eq!(bad.accept(), Err("unsupported audio format: 3 Hz, 2 channels".to_string()));
    let too_many = AudioHeader::new(AudioFormat { rate: 48_000, channels: 9 });
    assert_eq!(too_many.accept(), Err("unsupported audio format: 48000 Hz, 9 channels".to_string()));
}

#[test]
fn a_supported_header_is_accepted_as_it_is() {
    let h = AudioHeader::new(CD);
    assert_eq!(h.accept(), Ok(h));
    assert_eq!(h.encoding, EncodingTag::S16Le);
    assert_eq!(default_encoding(), EncodingTag::S16Le);
}

#[test]
fn frame_and_rate_math_matches_the_measured_stream() {
    assert_eq!(CD.bytes_per_frame(), 4);
    assert_eq!(CD.bytes_per_second(), 192_000);
    assert_eq!(AudioFormat::default(), CD);
}

#[test]
fn the_supported_range_is_inclusive_at_both_ends() {
    assert!(AudioFormat { rate: 8_000, channels: 1 }.is_supported());
    assert!(AudioFormat { rate: 192_000, channels: 2 }.is_supported());
    assert!(!AudioFormat { rate: 7_999, channels: 1 }.is_supported());
    assert!(!AudioFormat { rate: 192_001, channels: 1 }.is_supported());
    assert!(!AudioFormat { rate: 48_000, channels: 0 }.is_supported());
}

#[test]
fn decode_appends_to_what_is_already_there() {
    let mut out = vec![7i16];
    let mono = AudioFormat { rate: 48_000, channels: 1 };
    assert_eq!(decode_s16le(&[0xff, 0xff, 0x01], mono, &mut out), 2);
    assert_eq!(out, vec![7i16, -1i16]);
}

#[test]
fn encode_is_little_endian_twos_complement() {
    let mut out = vec![9u8];
    encode_s16le(&[256, -1, -32768, 1], &mut out);
    assert_eq!(out, vec![9, 0x00, 0x01, 0xFF, 0xFF, 0x00, 0x80, 0x01, 0x00]);
}

#[test]
fn decoding_what_was_encoded_gives_the_samples_back() {
    let samples: Vec<i16> = vec![0, 1, -1, 12345, -12345, i16::MAX, i16::MIN, 256];
    let mut bytes = Vec::new();
    encode_s16le(&samples, &mut bytes);
    let mut back = Vec::new();
    assert_eq!(decode_s16le(&bytes, CD, &mut back), bytes.len());
    assert_eq!(back, samples);
}

#[test]
fn the_playback_queue_keeps_only_the_newest_samples() {
    let mut buf: VecDeque<i16> = VecDeque::from(vec![1, 2, 3]);
    queue_for_playback(&mut buf, &[4, 5], 4);
    assert_eq!(Vec::from(buf.clone()), vec![2, 3, 4, 5]);
    queue_for_playback(&mut buf, &[6], 10);
    assert_eq!(Vec::from(buf), vec![2, 3, 4, 5, 6]);
}

#[test]
fn a_partial_frame_is_carried_into_the_next_read() {
    let mut carry = vec![1u8];
    let mut out = Vec::new();
    take_frames(&mut carry, &[0, 2, 0, 3], CD, &mut out);
    assert_eq!(out, vec![1i16, 2i16]);
    assert_eq!(carry, vec![3u8]);
    take_frames(&mut carry, &[0, 4, 0], CD, &mut out);
    assert_eq!(out, vec![1i16, 2i16, 3i16, 4i16]);
    assert!(carry.is_empty());
}

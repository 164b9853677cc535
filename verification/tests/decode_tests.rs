//! Lossy decoding of output chunks.

use pty_session::decode::lossy_decode;

#[test]
fn ascii_is_decoded_unchanged() {
    let bytes: Vec<u8> = b"hello, world".to_vec();
    assert_eq!(lossy_decode(&bytes), "hello, world");
}

#[test]
fn empty_chunk_decodes_to_empty_text() {
    let bytes: Vec<u8> = Vec::new();
    assert_eq!(lossy_decode(&bytes), "");
}

#[test]
fn two_byte_scalar_is_decoded() {
    // 'é' is C3 A9
    let bytes: Vec<u8> = vec![0x63, 0x61, 0x66, 0xc3, 0xa9];
    assert_eq!(lossy_decode(&bytes), "caf\u{e9}");
}

#[test]
fn three_byte_scalar_is_decoded() {
    // the euro sign is E2 82 AC
    let bytes: Vec<u8> = vec![0xe2, 0x82, 0xac];
    assert_eq!(lossy_decode(&bytes), "\u{20ac}");
}

#[test]
fn four_byte_scalar_is_decoded() {
    // the musical G clef is F0 9D 84 9E
    let bytes: Vec<u8> = vec![0xf0, 0x9d, 0x84, 0x9e];
    assert_eq!(lossy_decode(&bytes), "\u{1d11e}");
}

#[test]
fn invalid_byte_becomes_replacement_not_an_error() {
    let bytes: Vec<u8> = vec![0x41, 0xff, 0x42];
    assert_eq!(lossy_decode(&bytes), "A\u{fffd}B");
}

#[test]
fn lone_continuation_byte_is_replaced() {
    let bytes: Vec<u8> = vec![0x80];
    assert_eq!(lossy_decode(&bytes), "\u{fffd}");
}

#[test]
fn overlong_encoding_is_replaced() {
    // C0 AF is an overlong encoding of '/'
    let bytes: Vec<u8> = vec![0xc0, 0xaf];
    assert_eq!(lossy_decode(&bytes), "\u{fffd}\u{fffd}");
}

#[test]
fn surrogate_encoding_is_replaced() {
    // ED A0 80 would encode the surrogate D800
    let bytes: Vec<u8> = vec![0xed, 0xa0, 0x80];
    assert_eq!(lossy_decode(&bytes), "\u{fffd}\u{fffd}\u{fffd}");
}

#[test]
fn truncated_sequence_is_replaced() {
    // E2 82 begins a three-byte encoding that never finishes
    let bytes: Vec<u8> = vec![0xe2, 0x82];
    assert_eq!(lossy_decode(&bytes), "\u{fffd}\u{fffd}");
}

#[test]
fn beyond_unicode_range_is_replaced() {
    // F4 90 80 80 would encode 110000, one past the last scalar
    let bytes: Vec<u8> = vec![0xf4, 0x90, 0x80, 0x80];
    assert_eq!(lossy_decode(&bytes), "\u{fffd}\u{fffd}\u{fffd}\u{fffd}");
}

#[test]
fn valid_text_around_invalid_bytes_is_kept() {
    let bytes: Vec<u8> = vec![0xe2, 0x82, 0xac, 0xff, 0x21];
    assert_eq!(lossy_decode(&bytes), "\u{20ac}\u{fffd}!");
}

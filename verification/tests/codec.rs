//! Wide-string codec tests: exact encodings and the round-trip laws on
//! concrete values.

use ramen::codec::WIDE_REPLACEMENT;
use ramen::codec::decode_wide;
use ramen::codec::encode_wide;

fn chars(s: &str) -> Vec<char> {
    s.chars().collect()
}

fn text(v: &[char]) -> String {
    v.iter().collect()
}

#[test]
fn round_trip_plain() {
    let original = chars("Cool Window");
    let encoded = encode_wide(&original);
    assert_eq!(*encoded.last().unwrap(), 0);
    let decoded = decode_wide(&encoded);
    assert_eq!(decoded, original);
}

#[test]
fn encode_ascii_exact() {
    assert_eq!(encode_wide(&chars("Az")), vec![0x41, 0x7A, 0x00]);
}

#[test]
fn encode_empty_is_terminator_only() {
    assert_eq!(encode_wide(&chars("")), vec![0x00]);
    assert_eq!(decode_wide(&vec![0x00]), chars(""));
    assert_eq!(decode_wide(&vec![]), chars(""));
}

#[test]
fn embedded_terminator_sanitized() {
    let original = chars("a\0b");
    let encoded = encode_wide(&original);
    assert_eq!(encoded, vec![0x61, 0x20, 0x62, 0x00]);
    let decoded = decode_wide(&encoded);
    assert_eq!(text(&decoded), "a b");
}

#[test]
fn sanitization_is_idempotent() {
    let original = chars("one\0two\0");
    let once = decode_wide(&encode_wide(&original));
    assert_eq!(text(&once), "one two ");
    let twice = decode_wide(&encode_wide(&once));
    assert_eq!(twice, once);
}

#[test]
fn surrogate_pair_round_trip() {
    let original = chars("\u{1F600}");
    let encoded = encode_wide(&original);
    assert_eq!(encoded, vec![0xD83D, 0xDE00, 0x00]);
    assert_eq!(decode_wide(&encoded), original);
}

#[test]
fn mixed_text_round_trip() {
    let original = chars("p\u{00E9}\u{4E2D}\u{10348}!");
    let decoded = decode_wide(&encode_wide(&original));
    assert_eq!(decoded, original);
}

#[test]
fn lone_high_surrogate_decodes_to_replacement() {
    assert_eq!(decode_wide(&vec![0xD800, 0x41, 0x00]), vec![WIDE_REPLACEMENT, 'A']);
}

#[test]
fn lone_low_surrogate_decodes_to_replacement() {
    assert_eq!(decode_wide(&vec![0xDC00, 0x00]), vec![WIDE_REPLACEMENT]);
}

#[test]
fn decode_stops_at_terminator() {
    assert_eq!(decode_wide(&vec![0x41, 0x00, 0x42]), vec!['A']);
}

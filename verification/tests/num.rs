use pe_vm::num::{decode_utf16_lossy, encode_utf16, parse_radix};

#[test]
fn utf16_decoding_pairs_and_lone_surrogates() {
    let text = decode_utf16_lossy(&[0x48, 0xD83D, 0xDE00, 0xD800, 0x41, 0xDC00]);
    assert_eq!(text, "H\u{1F600}\u{FFFD}A\u{FFFD}");
    assert_eq!(decode_utf16_lossy(&[0x3042, 0x00E9]), "\u{3042}\u{E9}");
    assert_eq!(decode_utf16_lossy(&[]), "");
}

#[test]
fn utf16_encoding_round_trip() {
    let chars: Vec<char> = "a\u{1F600}\u{3042}".chars().collect();
    let units = encode_utf16(&chars);
    assert_eq!(units, vec![0x61, 0xD83D, 0xDE00, 0x3042]);
    assert_eq!(decode_utf16_lossy(&units), "a\u{1F600}\u{3042}");
}

#[test]
fn radix_parsing() {
    let digits: Vec<char> = "ff".chars().collect();
    assert_eq!(parse_radix(&digits, 16, u32::MAX), Some(255));
    let digits: Vec<char> = "12z".chars().collect();
    assert_eq!(parse_radix(&digits, 10, u32::MAX), None);
}

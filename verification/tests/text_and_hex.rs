use lightning_client::hex_codec::{decode_hex, encode_hex, lower_hex_digits, normalize_hex, HexError};
use lightning_client::text::{
    i64_to_decimal, parse_u16, str_equal, strip_trailing_slashes, trim_whitespace, u64_to_decimal,
};

#[test]
fn trailing_slashes_are_stripped() {
    assert_eq!(strip_trailing_slashes("http://node:8080///"), "http://node:8080");
    assert_eq!(strip_trailing_slashes("http://node:8080"), "http://node:8080");
    assert_eq!(strip_trailing_slashes("///"), "");
    assert_eq!(strip_trailing_slashes("a/b/"), "a/b");
}

#[test]
fn stripping_twice_changes_nothing() {
    let once = strip_trailing_slashes("https://x/y//");
    assert_eq!(strip_trailing_slashes(&once), once);
}

#[test]
fn whitespace_is_trimmed_on_both_sides() {
    assert_eq!(trim_whitespace("  /etc/tls.cert \n"), "/etc/tls.cert");
    assert_eq!(trim_whitespace("\t \u{3000}"), "");
    assert_eq!(trim_whitespace("a b"), "a b");
    assert_eq!(trim_whitespace("\u{2003}x\u{a0}"), "x");
}

#[test]
fn string_equality_is_by_characters() {
    assert!(str_equal("cln", "cln"));
    assert!(!str_equal("cln", "cl"));
    assert!(!str_equal("lnd-rest", "lnd-grpc"));
    assert!(str_equal("", ""));
}

#[test]
fn decimal_rendering() {
    assert_eq!(u64_to_decimal(0), "0");
    assert_eq!(u64_to_decimal(1700000000), "1700000000");
    assert_eq!(u64_to_decimal(u64::MAX), "18446744073709551615");
    assert_eq!(i64_to_decimal(-42), "-42");
    assert_eq!(i64_to_decimal(i64::MIN), "-9223372036854775808");
    assert_eq!(i64_to_decimal(7), "7");
}

#[test]
fn port_parsing_follows_str_parse() {
    for s in ["8080", "+80", "0080", "65535", "0", "-1", "", "+", "65536", " 80", "80 ", "8o", "999999999999"] {
        assert_eq!(parse_u16(s), s.parse::<u16>().ok(), "input {:?}", s);
    }
}

#[test]
fn port_round_trips_through_decimal() {
    for p in [0u16, 1, 80, 443, 8080, 65535] {
        assert_eq!(parse_u16(&u64_to_decimal(p as u64)), Some(p));
    }
}

#[test]
fn hex_decoding() {
    assert_eq!(decode_hex("48656c6c6f").unwrap(), b"Hello".to_vec());
    assert_eq!(decode_hex("DEADbeef").unwrap(), vec![0xde, 0xad, 0xbe, 0xef]);
    assert_eq!(decode_hex("").unwrap(), Vec::<u8>::new());
    assert_eq!(decode_hex("123"), Err(HexError::OddLength));
    assert_eq!(decode_hex("zz"), Err(HexError::InvalidHexCharacter { c: 'z', index: 0 }));
    assert_eq!(decode_hex("0g"), Err(HexError::InvalidHexCharacter { c: 'g', index: 1 }));
    assert_eq!(decode_hex("0g1"), Err(HexError::OddLength));
}

#[test]
fn hex_encoding_is_lowercase() {
    assert_eq!(encode_hex(&[0x00, 0x0f, 0xab, 0xff]), "000fabff");
    assert_eq!(lower_hex_digits(&[0x00, 0x0f, 0xab, 0xff]), "000fabff");
    assert_eq!(lower_hex_digits(&[]), "");
}

#[test]
fn hex_round_trip() {
    let bytes: Vec<u8> = (0u8..=255).collect();
    assert_eq!(decode_hex(&encode_hex(&bytes)).unwrap(), bytes);
}

#[test]
fn hex_normalization() {
    assert_eq!(normalize_hex("ABCDef01").unwrap(), "abcdef01");
    let once = normalize_hex("0A0B").unwrap();
    assert_eq!(normalize_hex(&once).unwrap(), once);
    assert_eq!(normalize_hex("abc"), Err(HexError::OddLength));
}

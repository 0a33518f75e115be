use humility::errors::Error;
use humility::util::{
    bytes_eq, contains_bytes, decode_hex_pairs, ends_with, find_byte, parse_u32_dec_str,
    parse_u32_token, parse_u64_token, parse_u8_token, parse_usize_dec, push_dec_u64, push_hex_u64,
    starts_with, str_eq,
};

#[test]
fn byte_comparison() {
    assert!(bytes_eq(b"abc", b"abc"));
    assert!(!bytes_eq(b"abc", b"abd"));
    assert!(!bytes_eq(b"abc", b"ab"));
    assert!(bytes_eq(b"", b""));
}

#[test]
fn substring_search() {
    assert!(contains_bytes(b"Error: target not halted", b"Error: "));
    assert!(!contains_bytes(b"error: lowercase", b"Error: "));
    assert!(contains_bytes(b"abc", b""));
    assert!(starts_with(b"mrw 0x1000", b"mrw "));
    assert!(!starts_with(b"mr", b"mrw "));
    assert!(ends_with(b"data\r\n", b"\r\n"));
    assert!(!ends_with(b"data", b"\r\n"));
}

#[test]
fn string_comparison() {
    assert!(str_eq("halted", "halted"));
    assert!(!str_eq("halted", "halt"));
    assert!(!str_eq("halted", "running"));
}

#[test]
fn first_byte_position() {
    assert_eq!(find_byte(b"a#b#c", 0x23), Some(1));
    assert_eq!(find_byte(b"abc", 0x23), None);
}

#[test]
fn rendering() {
    let mut v = Vec::new();
    push_hex_u64(&mut v, 0);
    assert_eq!(v, b"0".to_vec());
    let mut v = Vec::new();
    push_hex_u64(&mut v, 0xdeadbeef);
    assert_eq!(v, b"deadbeef".to_vec());
    let mut v = Vec::new();
    push_dec_u64(&mut v, 65536);
    assert_eq!(v, b"65536".to_vec());
}

#[test]
fn token_parsing() {
    assert_eq!(parse_u64_token(b"123"), Some(123));
    assert_eq!(parse_u64_token(b"0x41"), Some(0x41));
    assert_eq!(parse_u64_token(b"0X41"), Some(0x41));
    assert_eq!(parse_u64_token(b""), None);
    assert_eq!(parse_u64_token(b"0x"), None);
    assert_eq!(parse_u64_token(b"12a"), None);
    assert_eq!(parse_u64_token(b"18446744073709551615"), Some(u64::MAX));
    assert_eq!(parse_u64_token(b"18446744073709551616"), None);
    assert_eq!(parse_u8_token(b"255"), Some(255));
    assert_eq!(parse_u8_token(b"256"), None);
    assert_eq!(parse_u32_token(b"0xffffffff"), Some(u32::MAX));
    assert_eq!(parse_u32_token(b"0x100000000"), None);
    assert_eq!(parse_usize_dec(b"42"), Some(42));
    assert_eq!(parse_usize_dec(b"0x42"), None);
    assert_eq!(parse_u32_dec_str("833"), Some(833));
    assert_eq!(parse_u32_dec_str("x"), None);
    assert_eq!(parse_u32_dec_str(""), None);
}

#[test]
fn hex_pair_decoding() {
    assert_eq!(decode_hex_pairs(b"0aFF10"), Ok(vec![0x0a, 0xff, 0x10]));
    assert_eq!(decode_hex_pairs(b""), Ok(vec![]));
    assert_eq!(decode_hex_pairs(b"0a1"), Err(Error::BadResponse));
    assert_eq!(decode_hex_pairs(b"zz"), Err(Error::BadInteger));
}

use mavlink_server::drivers::endpoints::chars_to_string;
use mavlink_server::text::{
    append_decimal, append_str, concat_str, decimal_digits, find_byte, find_char, host_port, parse_u16_str,
    parse_u32_str, parse_u64_bytes, parse_u64_str, parse_u8_str, str_eq,
};

#[test]
fn numbers_parse_like_from_str() {
    assert_eq!(parse_u64_bytes(b"18446744073709551615"), Some(u64::MAX));
    assert_eq!(parse_u64_bytes(b"18446744073709551616"), None);
    assert_eq!(parse_u64_bytes(b"+12"), Some(12));
    assert_eq!(parse_u64_bytes(b"+"), None);
    assert_eq!(parse_u64_bytes(b""), None);
    assert_eq!(parse_u64_bytes(b"1 2"), None);
    assert_eq!(parse_u64_str("007"), Some(7));
    assert_eq!(parse_u64_str("٣"), None);
    assert_eq!(parse_u32_str("4294967296"), None);
    assert_eq!(parse_u16_str("65535"), Some(65535));
    assert_eq!(parse_u16_str("65536"), None);
    assert_eq!(parse_u8_str("255"), Some(255));
    assert_eq!(parse_u8_str("-1"), None);
    for text in ["0", "42", "+7", "99999", "abc", "", "12a"] {
        assert_eq!(parse_u64_str(text), text.parse::<u64>().ok());
        assert_eq!(parse_u16_str(text), text.parse::<u16>().ok());
    }
}

#[test]
fn decimals_and_strings() {
    assert_eq!(decimal_digits(0), vec!['0']);
    assert_eq!(decimal_digits(1203), vec!['1', '2', '0', '3']);
    let mut s = "v".to_string();
    append_decimal(&mut s, 45);
    append_str(&mut s, "!");
    assert_eq!(s, "v45!");
    assert_eq!(host_port("localhost", 14550), "localhost:14550");
    assert_eq!(concat_str("ab", "cd"), "abcd");
    assert!(str_eq("mavlink", "mavlink"));
    assert!(!str_eq("mavlink", "mavlinK"));
    assert_eq!(chars_to_string(&vec!['o', 'k']), "ok");
}

#[test]
fn searches_stop_at_the_first_match() {
    assert_eq!(find_byte(b"a\tb\tc", b'\t', 0), 1);
    assert_eq!(find_byte(b"a\tb\tc", b'\t', 2), 3);
    assert_eq!(find_byte(b"abc", b'\t', 0), 3);
    assert_eq!(find_char("é:x:y", ':', 0), 1);
    assert_eq!(find_char("é:x:y", ':', 2), 3);
    assert_eq!(find_char("abc", ':', 3), 3);
}

use zkpassport::text::{hex16, starts_with_hex_prefix, str_eq};

#[test]
fn hex16_pads_with_zeros() {
    assert_eq!(hex16(0), "0000000000000000");
    assert_eq!(hex16(1), "0000000000000001");
    assert_eq!(hex16(15), "000000000000000f");
    assert_eq!(hex16(16), "0000000000000010");
    assert_eq!(hex16(255), "00000000000000ff");
}

#[test]
fn hex16_writes_lower_case_digits() {
    assert_eq!(hex16(0xdead_beef), "00000000deadbeef");
    assert_eq!(hex16(0x0123_4567_89ab_cdef), "0123456789abcdef");
    assert_eq!(hex16(u64::MAX), "ffffffffffffffff");
    assert_eq!(hex16(0x1000_0000_0000_0000), "1000000000000000");
}

#[test]
fn hex16_agrees_with_std_formatting() {
    for n in [0u64, 6, 42, 4096, 65535, 1 << 32, (1 << 40) + 12345, u64::MAX - 1] {
        assert_eq!(hex16(n), format!("{:016x}", n));
    }
}

#[test]
fn str_eq_compares_characters() {
    assert!(str_eq("", ""));
    assert!(str_eq("0x1234", "0x1234"));
    assert!(!str_eq("0x1234", "0x1235"));
    assert!(!str_eq("0x1234", "0x123"));
    assert!(!str_eq("", "a"));
    assert!(str_eq("h\u{e9}llo", "h\u{e9}llo"));
    assert!(!str_eq("h\u{e9}llo", "hello"));
}

#[test]
fn starts_with_hex_prefix_looks_at_two_characters() {
    assert!(starts_with_hex_prefix("0x"));
    assert!(starts_with_hex_prefix("0x1234"));
    assert!(starts_with_hex_prefix("0xx"));
    assert!(!starts_with_hex_prefix(""));
    assert!(!starts_with_hex_prefix("0"));
    assert!(!starts_with_hex_prefix("x0"));
    assert!(!starts_with_hex_prefix("0X12"));
    assert!(!starts_with_hex_prefix("1x12"));
    assert!(!starts_with_hex_prefix("\u{ff10}x12"));
}

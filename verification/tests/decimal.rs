use link_archive::decimal::{format_u32, parse_u32};

#[test]
fn parse_u32_reads_decimal() {
    assert_eq!(parse_u32("0"), Some(0));
    assert_eq!(parse_u32("7"), Some(7));
    assert_eq!(parse_u32("42"), Some(42));
    assert_eq!(parse_u32("4294967295"), Some(4294967295));
    assert_eq!(parse_u32("+15"), Some(15));
    assert_eq!(parse_u32("00042"), Some(42));
    assert_eq!(parse_u32("000000000000000000000000000001"), Some(1));
}

#[test]
fn parse_u32_rejects_the_rest() {
    assert_eq!(parse_u32(""), None);
    assert_eq!(parse_u32("+"), None);
    assert_eq!(parse_u32("-"), None);
    assert_eq!(parse_u32("-1"), None);
    assert_eq!(parse_u32("++1"), None);
    assert_eq!(parse_u32("1+"), None);
    assert_eq!(parse_u32(" 1"), None);
    assert_eq!(parse_u32("1 "), None);
    assert_eq!(parse_u32("12a"), None);
    assert_eq!(parse_u32("self"), None);
    assert_eq!(parse_u32("4294967296"), None);
    assert_eq!(parse_u32("99999999999999999999999999"), None);
    assert_eq!(parse_u32("1\u{e9}"), None);
    assert_eq!(parse_u32("\u{661}"), None);
}

#[test]
fn parse_u32_agrees_with_std() {
    let samples = [
        "", "0", "1", "+1", "-1", "+", "-0", "+0", "0x10", "4294967295", "4294967296",
        "04294967295", "42949672950", "12 ", "١٢", "1_000", "1e3", "007", "+007", "18446744073709551616",
    ];
    for s in samples {
        assert_eq!(parse_u32(s), s.parse::<u32>().ok(), "{:?}", s);
    }
}

#[test]
fn format_u32_writes_decimal() {
    assert_eq!(format_u32(0), "0");
    assert_eq!(format_u32(9), "9");
    assert_eq!(format_u32(10), "10");
    assert_eq!(format_u32(1234567890), "1234567890");
    assert_eq!(format_u32(u32::MAX), "4294967295");
}

#[test]
fn format_then_parse_gives_the_number_back() {
    for n in [0u32, 1, 9, 10, 99, 100, 65535, 65536, 4294967294, 4294967295] {
        assert_eq!(format_u32(n), n.to_string());
        assert_eq!(parse_u32(&format_u32(n)), Some(n));
    }
}

use system_monitor::text::{active_clock_mhz, read_i64, read_u32, trimmed_string};

#[test]
fn reads_unsigned_reading_with_surrounding_space() {
    assert_eq!(read_u32(" 42\n"), Some(42));
    assert_eq!(read_u32("+7"), Some(7));
    assert_eq!(read_u32("4294967295"), Some(4294967295));
}

#[test]
fn rejects_malformed_unsigned_readings() {
    assert_eq!(read_u32(""), None);
    assert_eq!(read_u32("   "), None);
    assert_eq!(read_u32("-1"), None);
    assert_eq!(read_u32("4294967296"), None);
    assert_eq!(read_u32("12a"), None);
    assert_eq!(read_u32("1 2"), None);
    assert_eq!(read_u32("+"), None);
}

#[test]
fn reads_signed_milli_readings() {
    assert_eq!(read_i64("45000\n"), Some(45000));
    assert_eq!(read_i64("-5000"), Some(-5000));
    assert_eq!(read_i64("-9223372036854775808"), Some(i64::MIN));
    assert_eq!(read_i64("9223372036854775808"), None);
    assert_eq!(read_i64("45.5"), None);
    assert_eq!(read_i64("-"), None);
}

#[test]
fn trims_unicode_white_space() {
    assert_eq!(trimmed_string("  Radeon RX 6800\n"), "Radeon RX 6800");
    assert_eq!(trimmed_string("\u{a0}name\u{3000}"), "name");
    assert_eq!(trimmed_string(" \t\n"), "");
}

#[test]
fn finds_active_clock_line() {
    let table = "0: 500Mhz\n1: 1200Mhz\n2: 1800Mhz *\n";
    assert_eq!(active_clock_mhz(table), Some(1800));
}

#[test]
fn clock_suffix_variants_are_tolerated() {
    assert_eq!(active_clock_mhz("1: 1800MHz *"), Some(1800));
    assert_eq!(active_clock_mhz("1: 1800 *"), Some(1800));
    assert_eq!(active_clock_mhz("1: 1800Mhz *\r\n"), Some(1800));
}

#[test]
fn no_active_clock_line() {
    assert_eq!(active_clock_mhz("0: 500Mhz\n1: 1800Mhz\n"), None);
    assert_eq!(active_clock_mhz(""), None);
    assert_eq!(active_clock_mhz("*"), None);
}

#[test]
fn unreadable_active_line_is_skipped() {
    assert_eq!(active_clock_mhz("0: fast *\n1: 900Mhz *\n"), Some(900));
}

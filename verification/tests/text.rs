use fiberpath_bridge::platform::Platform;
use fiberpath_bridge::text::{decimal_string, join, parse_u32, signed_decimal_string, trim};

#[test]
fn decimal_numerals() {
    assert_eq!(decimal_string(0), "0");
    assert_eq!(decimal_string(7), "7");
    assert_eq!(decimal_string(10), "10");
    assert_eq!(decimal_string(115200), "115200");
    assert_eq!(decimal_string(1234567890), "1234567890");
    assert_eq!(decimal_string(u128::MAX), u128::MAX.to_string());
}

#[test]
fn signed_numerals() {
    assert_eq!(signed_decimal_string(0), "0");
    assert_eq!(signed_decimal_string(1), "1");
    assert_eq!(signed_decimal_string(-1), "-1");
    assert_eq!(signed_decimal_string(i32::MAX), "2147483647");
    assert_eq!(signed_decimal_string(i32::MIN), "-2147483648");
}

#[test]
fn numerals_are_read_back() {
    for n in [0u32, 1, 9, 10, 99, 100, 9600, 115200, 4294967295] {
        assert_eq!(parse_u32(&decimal_string(n as u128)), Some(n));
    }
}

#[test]
fn what_is_no_numeral_is_not_read() {
    assert_eq!(parse_u32(""), None);
    assert_eq!(parse_u32("00"), None);
    assert_eq!(parse_u32("007"), None);
    assert_eq!(parse_u32("+7"), None);
    assert_eq!(parse_u32("-7"), None);
    assert_eq!(parse_u32(" 7"), None);
    assert_eq!(parse_u32("7 "), None);
    assert_eq!(parse_u32("1_000"), None);
    assert_eq!(parse_u32("12a"), None);
    assert_eq!(parse_u32("\u{0663}"), None);
    assert_eq!(parse_u32("4294967296"), None);
    assert_eq!(parse_u32("99999999999999999999999999"), None);
    assert_eq!(parse_u32("4294967295"), Some(u32::MAX));
}

#[test]
fn joining_with_a_separator() {
    assert_eq!(join(&vec![], " "), "");
    assert_eq!(join(&vec!["plan".to_string()], " "), "plan");
    assert_eq!(
        join(&vec!["plan".to_string(), "a b".to_string(), "".to_string(), "--json".to_string()], " "),
        "plan a b  --json"
    );
    assert_eq!(join(&vec!["a".to_string(), "b".to_string()], ", "), "a, b");
}

#[test]
fn trimming_whitespace() {
    assert_eq!(trim(""), "");
    assert_eq!(trim("   \n\t"), "");
    assert_eq!(trim("abc"), "abc");
    assert_eq!(trim("  a b  c \r\n"), "a b  c");
    assert_eq!(trim("\u{2003}\u{00e9}t\u{00e9}\u{00a0}"), "\u{00e9}t\u{00e9}");
    assert_eq!(trim("x"), "x");
    assert_eq!(trim(" x"), "x");
    assert_eq!(trim("x "), "x");
    assert_eq!(trim("\u{200b}x"), "\u{200b}x");
}

#[test]
fn platforms_by_name() {
    assert_eq!(Platform::from_os_name("windows"), Some(Platform::Windows));
    assert_eq!(Platform::from_os_name("macos"), Some(Platform::MacOs));
    assert_eq!(Platform::from_os_name("linux"), Some(Platform::Linux));
    assert_eq!(Platform::from_os_name("Windows"), None);
    assert_eq!(Platform::from_os_name("freebsd"), None);
    assert_eq!(Platform::from_os_name(""), None);
    assert!(Platform::Windows.needs_hidden_console());
    assert!(!Platform::MacOs.needs_hidden_console());
    assert!(!Platform::Linux.needs_hidden_console());
}

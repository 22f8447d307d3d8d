use anvil::text::{decimal, ends_with, parse_unsigned, same, split, starts_with};

#[test]
fn comparing() {
    assert!(same("AI-Desktop", "AI-Desktop"));
    assert!(!same("AI-Desktop", "AI-desktop"));
    assert!(!same("", "a"));
    assert!(same("", ""));
}

#[test]
fn prefixes_and_suffixes() {
    assert!(starts_with("chrome-127.0.0.1__-Default", "chrome-127.0.0.1"));
    assert!(!starts_with("chrome", "chrome-127.0.0.1"));
    assert!(ends_with("chrome-127.0.0.1__-Default", "-Default"));
    assert!(!ends_with("-Default-", "-Default"));
    assert!(starts_with("x", ""));
    assert!(ends_with("x", ""));
}

#[test]
fn splitting() {
    assert_eq!(split("ctrl+alt+x", '+'), vec!["ctrl", "alt", "x"]);
    assert_eq!(split("", '+'), vec![""]);
    assert_eq!(split("+", '+'), vec!["", ""]);
    assert_eq!(split("a++", '+'), vec!["a", "", ""]);
}

#[test]
fn numerals() {
    assert_eq!(decimal(0), "0");
    assert_eq!(decimal(10), "10");
    assert_eq!(decimal(1907), "1907");
    assert_eq!(decimal(u32::MAX), "4294967295");
    assert_ne!(decimal(1), decimal(11));
}

#[test]
fn reading_numbers() {
    assert_eq!(parse_unsigned(b"24", 10, u32::MAX), Some(24));
    assert_eq!(parse_unsigned(b"+24", 10, u32::MAX), Some(24));
    assert_eq!(parse_unsigned(b"4294967295", 10, u32::MAX), Some(u32::MAX));
    assert_eq!(parse_unsigned(b"4294967296", 10, u32::MAX), None);
    assert_eq!(parse_unsigned(b"", 10, u32::MAX), None);
    assert_eq!(parse_unsigned(b"+", 10, u32::MAX), None);
    assert_eq!(parse_unsigned(b"-1", 10, u32::MAX), None);
    assert_eq!(parse_unsigned(b" 1", 10, u32::MAX), None);
    assert_eq!(parse_unsigned(b"fF", 16, 0xff), Some(0xff));
    assert_eq!(parse_unsigned(b"100", 16, 0xff), None);
    assert_eq!(parse_unsigned(b"0g", 16, 0xff), None);
}

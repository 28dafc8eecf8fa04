use toolkit_utils::text::{decimal_string, eq_str, format_with_underscores, push_decimal, str_len};

#[test]
fn underscores_group_by_three() {
    assert_eq!(format_with_underscores(1234567), "1_234_567");
    assert_eq!(format_with_underscores(0), "0");
    assert_eq!(format_with_underscores(999), "999");
    assert_eq!(format_with_underscores(1000), "1_000");
    assert_eq!(format_with_underscores(100200), "100_200");
    assert_eq!(format_with_underscores(u64::MAX), "18_446_744_073_709_551_615");
}

#[test]
fn decimal_notation() {
    assert_eq!(decimal_string(0), "0");
    assert_eq!(decimal_string(907), "907");
    let mut s = "n=".to_string();
    push_decimal(&mut s, 42);
    assert_eq!(s, "n=42");
}

#[test]
fn length_counts_graphemes() {
    assert_eq!(str_len(""), 0);
    assert_eq!(str_len("hello"), 5);
    assert_eq!(str_len("e\u{301}"), 1);
    assert_eq!(str_len("héllo"), 5);
}

#[test]
fn equality_ignores_case_and_outer_space() {
    assert!(eq_str("  Hello ", "hello"));
    assert!(eq_str("ÄBC", "äbc"));
    assert!(!eq_str("hello", "help"));
    assert!(!eq_str("a b", "ab"));
}

use swapeme::text::{
    joined, parse_decimal, parse_u32, str_contains, str_eq, str_first_line, str_starts_with, strip_prefix,
    substring, to_chars, u32_to_string,
};

#[test]
fn parse_u32_reads_plain_numbers() {
    assert_eq!(parse_u32("0"), Some(0));
    assert_eq!(parse_u32("3"), Some(3));
    assert_eq!(parse_u32("007"), Some(7));
    assert_eq!(parse_u32("4294967295"), Some(u32::MAX));
}

#[test]
fn parse_u32_accepts_a_plus_sign() {
    assert_eq!(parse_u32("+3"), Some(3));
    assert_eq!(parse_u32("+"), None);
    assert_eq!(parse_u32("++3"), None);
}

#[test]
fn parse_decimal_takes_no_sign() {
    assert_eq!(parse_decimal("0"), Some(0));
    assert_eq!(parse_decimal("007"), Some(7));
    assert_eq!(parse_decimal("4294967295"), Some(u32::MAX));
    assert_eq!(parse_decimal("4294967296"), None);
    assert_eq!(parse_decimal("+3"), None);
    assert_eq!(parse_decimal("-3"), None);
    assert_eq!(parse_decimal(""), None);
    assert_eq!(parse_decimal(" 3"), None);
    for n in [0u32, 9, 10, 12345, u32::MAX] {
        assert_eq!(parse_decimal(&u32_to_string(n)), Some(n));
    }
}

#[test]
fn parse_u32_rejects_what_is_no_number() {
    assert_eq!(parse_u32(""), None);
    assert_eq!(parse_u32("-1"), None);
    assert_eq!(parse_u32("X"), None);
    assert_eq!(parse_u32("12a"), None);
    assert_eq!(parse_u32(" 1"), None);
    assert_eq!(parse_u32("1_000"), None);
}

#[test]
fn parse_u32_rejects_what_does_not_fit() {
    assert_eq!(parse_u32("4294967296"), None);
    assert_eq!(parse_u32("99999999999999999999"), None);
}

#[test]
fn parse_u32_agrees_with_std() {
    for text in ["0", "+0", "42", "-0", "", "+", "4294967295", "4294967296", "١"] {
        assert_eq!(parse_u32(text), text.parse::<u32>().ok(), "{text:?}");
    }
}

#[test]
fn u32_to_string_writes_decimal() {
    assert_eq!(u32_to_string(0), "0");
    assert_eq!(u32_to_string(9), "9");
    assert_eq!(u32_to_string(10), "10");
    assert_eq!(u32_to_string(1836324036), "1836324036");
    assert_eq!(u32_to_string(u32::MAX), "4294967295");
}

#[test]
fn number_round_trip() {
    for n in [0u32, 1, 9, 10, 99, 100, 12345, u32::MAX] {
        assert_eq!(parse_u32(&u32_to_string(n)), Some(n));
    }
}

#[test]
fn contains_finds_substrings() {
    assert!(str_contains("Themes/Foo/color.ini", "Foo"));
    assert!(str_contains("Themes/Foo/color.ini", "color.ini"));
    assert!(str_contains("abc", ""));
    assert!(str_contains("", ""));
    assert!(str_contains("abc", "abc"));
    assert!(!str_contains("abc", "abcd"));
    assert!(!str_contains("Themes/Foo/color.ini", "foo"));
    assert!(!str_contains("", "a"));
    assert!(str_contains("aab", "ab"));
    assert!(str_contains("héllo wörld", "wör"));
}

#[test]
fn prefixes() {
    assert!(str_starts_with("Monitor3", "Monitor"));
    assert!(!str_starts_with("monitor3", "Monitor"));
    assert!(!str_starts_with("Mon", "Monitor"));
    assert_eq!(strip_prefix("Monitor3", "Monitor"), Some("3".to_string()));
    assert_eq!(strip_prefix("Monitor", "Monitor"), Some(String::new()));
    assert_eq!(strip_prefix("monitor3", "Monitor"), None);
}

#[test]
fn first_line_is_what_lines_gives_first() {
    assert_eq!(str_first_line(""), None);
    assert_eq!(str_first_line("C:\\tools\\spicetify\r\nmore"), Some("C:\\tools\\spicetify".to_string()));
    assert_eq!(str_first_line("/opt/spicetify\n"), Some("/opt/spicetify".to_string()));
    assert_eq!(str_first_line("one"), Some("one".to_string()));
    assert_eq!(str_first_line("\nrest"), Some(String::new()));
    assert_eq!(str_first_line("one\r"), Some("one\r".to_string()));
    assert_eq!(str_first_line("one\r\r\n"), Some("one\r".to_string()));
    for text in ["a\nb", "a\r\nb", "\r\n", "x\r", "x", "\n", "a\rb\n"] {
        assert_eq!(str_first_line(text).as_deref(), text.lines().next(), "{text:?}");
    }
}

#[test]
fn small_helpers() {
    assert_eq!(to_chars("héy"), vec!['h', 'é', 'y']);
    assert!(str_eq("a", "a"));
    assert!(!str_eq("a", "b"));
    assert_eq!(substring("héllo", 1, 3), "él");
    assert_eq!(joined("ab", "cd"), "abcd");
}

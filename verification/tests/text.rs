use kernel::text::{chars_equal, chars_of, join_chars, parse_u32, split_str, str_equals};

#[test]
fn equal_strings() {
    assert!(str_equals("proc", "proc"));
    assert!(!str_equals("proc", "proc1"));
    assert!(!str_equals("proc", "pros"));
    assert!(str_equals("", ""));
}

#[test]
fn split_keeps_empty_pieces() {
    assert_eq!(split_str("/proc/1", '/'), vec!["", "proc", "1"]);
    assert_eq!(split_str("", '/'), vec![""]);
    assert_eq!(split_str("a//b/", '/'), vec!["a", "", "b", ""]);
    assert_eq!(split_str("name", '/'), vec!["name"]);
}

#[test]
fn parse_decimal_numbers() {
    assert_eq!(parse_u32("42"), Some(42));
    assert_eq!(parse_u32("+7"), Some(7));
    assert_eq!(parse_u32("007"), Some(7));
    assert_eq!(parse_u32("4294967295"), Some(u32::MAX));
    assert_eq!(parse_u32("4294967296"), None);
    assert_eq!(parse_u32("99999999999999"), None);
    assert_eq!(parse_u32(""), None);
    assert_eq!(parse_u32("+"), None);
    assert_eq!(parse_u32("-1"), None);
    assert_eq!(parse_u32("12a"), None);
    assert_eq!(parse_u32("cwd"), None);
}

#[test]
fn parse_agrees_with_std() {
    for text in ["0", "1", "+12", "65536", "4294967295", "4294967296", "", "x", "1 ", " 1", "+-1"] {
        assert_eq!(parse_u32(text), text.parse::<u32>().ok());
    }
}

#[test]
fn joining_and_comparing() {
    let path = chars_of("a/b/c");
    assert!(chars_equal(&path, &chars_of("a/b/c")));
    assert!(!chars_equal(&path, &chars_of("a/b")));
    assert!(!chars_equal(&path, &chars_of("a/b/d")));
    assert_eq!(join_chars(&chars_of("a/b"), '/', &chars_of("c")), path);
    assert_eq!(join_chars(&chars_of(""), '/', &chars_of("c")), chars_of("c"));
    assert_eq!(join_chars(&chars_of("a"), '/', &chars_of("")), chars_of("a/"));
}

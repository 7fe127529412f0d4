use crater::state::{parse_pid_file, pid_file_contents};
use crater::text::{
    chars_of, clone_strings, decimal_string, join_strings, parse_i32, push_str, same_text,
    split_once_char, string_from_range, trim_whitespace,
};

#[test]
fn decimal_string_matches_display() {
    for n in [0, 7, 10, 42, 1234567, -1, -7, -10, i32::MAX, i32::MIN] {
        assert_eq!(decimal_string(n), n.to_string());
    }
    assert_eq!(decimal_string(-2147483648), "-2147483648");
    assert_eq!(decimal_string(305), "305");
}

#[test]
fn parse_i32_accepts_signed_decimals() {
    assert_eq!(parse_i32("42"), Some(42));
    assert_eq!(parse_i32("+42"), Some(42));
    assert_eq!(parse_i32("-42"), Some(-42));
    assert_eq!(parse_i32("007"), Some(7));
    assert_eq!(parse_i32("2147483647"), Some(i32::MAX));
    assert_eq!(parse_i32("-2147483648"), Some(i32::MIN));
}

#[test]
fn parse_i32_rejects_what_std_rejects() {
    for s in ["", "-", "+", "12a", " 1", "1 ", "-+1", "+-1", "2147483648", "-2147483649", "99999999999999999999", "1.0"] {
        assert_eq!(parse_i32(s), None, "{s}");
        assert!(s.parse::<i32>().is_err());
    }
}

#[test]
fn parse_i32_agrees_with_std() {
    for s in ["0", "-0", "+0", "123", "-2147483648", "2147483647", "0000000000000012", "x", "٣"] {
        assert_eq!(parse_i32(s), s.parse::<i32>().ok(), "{s}");
    }
}

#[test]
fn trim_whitespace_matches_str_trim() {
    for s in ["  12\n", "\u{a0}x\u{3000}", "", "   ", "a b", "\t\r\nq\u{2028}", "\u{200b}z"] {
        assert_eq!(trim_whitespace(s), s.trim(), "{s:?}");
    }
}

#[test]
fn split_once_char_splits_at_first() {
    assert_eq!(
        split_once_char("A=B=C", '='),
        Some(("A".to_string(), "B=C".to_string()))
    );
    assert_eq!(split_once_char("=x", '='), Some((String::new(), "x".to_string())));
    assert_eq!(split_once_char("x=", '='), Some(("x".to_string(), String::new())));
    assert_eq!(split_once_char("nope", '='), None);
}

#[test]
fn join_strings_puts_separator_between() {
    let parts = vec!["a".to_string(), "b".to_string(), "c".to_string()];
    assert_eq!(join_strings(&parts, ","), "a,b,c");
    assert_eq!(join_strings(&Vec::new(), ","), "");
    assert_eq!(join_strings(&vec!["only".to_string()], ","), "only");
}

#[test]
fn small_helpers_keep_text() {
    assert_eq!(chars_of("héllo"), vec!['h', 'é', 'l', 'l', 'o']);
    let v = chars_of("container");
    assert_eq!(string_from_range(&v, 2, 5), "nta");
    let mut s = "ab".to_string();
    push_str(&mut s, "cd");
    assert_eq!(s, "abcd");
    assert!(same_text("ro", "ro"));
    assert!(!same_text("ro", "rw"));
    let list = vec!["x".to_string(), "y".to_string()];
    assert_eq!(clone_strings(&list), list);
}

#[test]
fn pid_file_round_trip() {
    for pid in [1, 42, 4194304, 0, -5, i32::MAX, i32::MIN] {
        let contents = pid_file_contents(pid);
        assert_eq!(parse_pid_file(&contents), Some(pid));
        assert_eq!(parse_pid_file(&format!("{contents}\n")), Some(pid));
    }
}

#[test]
fn parse_pid_file_trims_and_rejects() {
    assert_eq!(parse_pid_file("  1234 \n"), Some(1234));
    assert_eq!(parse_pid_file(""), None);
    assert_eq!(parse_pid_file("12 34"), None);
    assert_eq!(parse_pid_file("pid"), None);
}

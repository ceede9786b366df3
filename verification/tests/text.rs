use tellonym::text::{format_i32, last_space_separated, parse_decimal_i32, starts_with, str_equal, trim};

#[test]
fn trim_removes_unicode_whitespace_at_both_ends() {
    assert_eq!(trim("  hello world \t\n"), "hello world");
    assert_eq!(trim("\u{3000}\u{a0}x\u{2009}"), "x");
    assert_eq!(trim("   "), "");
    assert_eq!(trim(""), "");
    assert_eq!(trim("inner  space"), "inner  space");
    for s in ["  a b ", "\u{85}z\u{2028}", "\r\nq", "nochange"] {
        assert_eq!(trim(s), s.trim());
    }
}

#[test]
fn last_piece_after_spaces() {
    assert_eq!(last_space_separated("Bearer abc.def.ghi"), "abc.def.ghi");
    assert_eq!(last_space_separated("token"), "token");
    assert_eq!(last_space_separated("Bearer "), "");
    assert_eq!(last_space_separated(""), "");
    assert_eq!(last_space_separated("a b c"), "c");
}

#[test]
fn prefix_and_equality() {
    assert!(starts_with("Foobar", "Foo"));
    assert!(starts_with("Foo", ""));
    assert!(!starts_with("Fo", "Foo"));
    assert!(!starts_with("barFoo", "Foo"));
    assert!(str_equal("sub", "sub"));
    assert!(!str_equal("sub", "sub "));
}

#[test]
fn decimal_parsing_matches_std() {
    for s in ["0", "42", "-17", "+8", "2147483647", "-2147483648", "2147483648", "-2147483649", "", "-", "+", "12a", " 1", "007", "99999999999999999999"] {
        assert_eq!(parse_decimal_i32(s), s.parse::<i32>().ok(), "{}", s);
    }
}

#[test]
fn decimal_formatting_matches_std_and_reads_back() {
    for n in [0, 7, 10, -1, 123456, i32::MAX, i32::MIN] {
        let text = format_i32(n);
        assert_eq!(text, n.to_string());
        assert_eq!(parse_decimal_i32(&text), Some(n));
    }
}

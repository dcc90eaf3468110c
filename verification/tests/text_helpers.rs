use de_configurator::features::wm::bspwm::BspwmDriver;
use de_configurator::text::{
    decimal_text, int_error_message, is_whitespace_char, join2, join3, join5, join_with,
    parse_decimal, split_lines, split_words, str_eq, trim_str, IntErrorKind,
};

#[test]
fn trim_removes_unicode_whitespace_at_both_ends() {
    assert_eq!(trim_str("  \t abc def \n"), "abc def");
    assert_eq!(trim_str("\u{3000}x\u{a0}"), "x");
    assert_eq!(trim_str("   "), "");
    assert_eq!(trim_str(""), "");
}

#[test]
fn whitespace_matches_char_is_whitespace() {
    for c in ['\t', '\n', ' ', '\u{85}', '\u{a0}', '\u{2003}', '\u{3000}', 'a', '_', '\u{200b}'] {
        assert_eq!(is_whitespace_char(c), c.is_whitespace(), "{:?}", c);
    }
}

#[test]
fn str_eq_compares_characters() {
    assert!(str_eq("abc", "abc"));
    assert!(!str_eq("abc", "abd"));
    assert!(!str_eq("abc", "ab"));
    assert!(str_eq("", ""));
}

#[test]
fn joins_concatenate() {
    assert_eq!(join2("a", "b"), "ab");
    assert_eq!(join3("<", "x", ">"), "<x>");
    assert_eq!(join5("a", "1", "b", "2", "c"), "a1b2c");
    let parts = vec!["wg-quick".to_string(), "up".to_string(), "w".to_string()];
    assert_eq!(join_with(&parts, " "), "wg-quick up w");
    assert_eq!(join_with(&vec![], " "), "");
    assert_eq!(join_with(&vec!["one".to_string()], ", "), "one");
}

#[test]
fn lowercase_goes_through_std() {
    assert!(BspwmDriver::class_matches("ВЕРХ", "верх"));
    assert!(BspwmDriver::class_matches("Ctrl+Shift+T", "ctrl+shift+t"));
    assert!(!BspwmDriver::class_matches("ВЕРХ", "верхи"));
}

#[test]
fn parse_decimal_follows_from_str() {
    assert_eq!(parse_decimal("42", u64::MAX), Ok(42));
    assert_eq!(parse_decimal("+7", u64::MAX), Ok(7));
    assert_eq!(parse_decimal("", u64::MAX), Err(IntErrorKind::Empty));
    assert_eq!(parse_decimal("+", u64::MAX), Err(IntErrorKind::InvalidDigit));
    assert_eq!(parse_decimal("-1", u64::MAX), Err(IntErrorKind::InvalidDigit));
    assert_eq!(parse_decimal("1x", u64::MAX), Err(IntErrorKind::InvalidDigit));
    assert_eq!(parse_decimal("4294967296", 4294967295), Err(IntErrorKind::PosOverflow));
    assert_eq!(parse_decimal("4294967295", 4294967295), Ok(4294967295));
    assert_eq!(parse_decimal("18446744073709551616", u64::MAX), Err(IntErrorKind::PosOverflow));
    for s in ["", "+", "-5", "12a", "99999999999999999999", "0", "+0012"] {
        let ours = parse_decimal(s, u64::MAX);
        let std_result = s.parse::<u64>();
        assert_eq!(ours.is_ok(), std_result.is_ok(), "{}", s);
        if let (Ok(a), Ok(b)) = (ours, std_result.clone()) {
            assert_eq!(a, b);
        }
        if let (Err(k), Err(e)) = (ours, std_result) {
            assert_eq!(int_error_message(k), e.to_string());
        }
    }
}

#[test]
fn decimal_text_matches_display() {
    for n in [0u64, 7, 10, 4224, 65535, u64::MAX] {
        assert_eq!(decimal_text(n), n.to_string());
    }
}

#[test]
fn split_lines_matches_str_lines() {
    for s in ["a\nb", "a\nb\n", "a\r\nb\r\n", "", "\n", "\n\nx", "a\rb", "x\r"] {
        let ours = split_lines(s);
        let std_lines: Vec<String> = s.lines().map(|l| l.to_string()).collect();
        assert_eq!(ours, std_lines, "{:?}", s);
    }
}

#[test]
fn split_words_matches_split_whitespace() {
    for s in ["node_focus 0x1 0x2 0x3", "  a\t b  ", "", "   ", "one"] {
        let ours = split_words(s);
        let std_words: Vec<String> = s.split_whitespace().map(|w| w.to_string()).collect();
        assert_eq!(ours, std_words, "{:?}", s);
    }
}

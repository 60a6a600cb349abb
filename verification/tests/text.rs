use tlist::text::{
    contains_str, decimal, encode_utf16, parse_u32, split_lines, split_whitespace, string_of,
    trim, trim_by, Strip,
};

#[test]
fn trim_removes_unicode_white_space() {
    assert_eq!(trim("  main\n"), "main");
    assert_eq!(trim("\u{3000}\u{a0}x y\u{2028}"), "x y");
    assert_eq!(trim(" \t\r\n"), "");
    assert_eq!(trim(""), "");
    assert_eq!(trim("a"), "a");
}

#[test]
fn trim_quotes() {
    assert_eq!(trim_by("\"a b\"", Strip::Quote), "a b");
    assert_eq!(trim_by("\"\"x\"", Strip::Quote), "x");
    assert_eq!(trim_by("\"", Strip::Quote), "");
    assert_eq!(trim_by("a\"b", Strip::Quote), "a\"b");
}

#[test]
fn lines_like_std() {
    for s in ["", "\n", "a", "a\n", "a\r\nb", "a\n\nb\n", "a\r", "x\r\n\r\n", "\r\n"] {
        let expected: Vec<String> = s.lines().map(|l| l.to_string()).collect();
        assert_eq!(split_lines(s), expected, "{:?}", s);
    }
}

#[test]
fn words_like_std() {
    for s in ["", "  ", "3\t5\n", " a  b ", "x\u{3000}y", "one"] {
        let expected: Vec<String> = s.split_whitespace().map(|l| l.to_string()).collect();
        assert_eq!(split_whitespace(s), expected, "{:?}", s);
    }
}

#[test]
fn parse_like_std() {
    for s in ["0", "42", "+7", "+", "-1", "", "4294967295", "4294967296", "007", "1a", " 1"] {
        assert_eq!(parse_u32(s), s.parse::<u32>().ok(), "{:?}", s);
    }
}

#[test]
fn decimal_like_std() {
    for n in [0u32, 7, 10, 99, 100, 12345, u32::MAX] {
        assert_eq!(decimal(n), n.to_string());
    }
}

#[test]
fn utf16_like_std() {
    for s in ["alert\0", "Segoe UI\0", "99+", "日本", "😀x", ""] {
        let expected: Vec<u16> = s.encode_utf16().collect();
        assert_eq!(encode_utf16(s), expected, "{:?}", s);
    }
}

#[test]
fn contains_like_std() {
    assert!(contains_str("fatal: unknown revision", "unknown revision"));
    assert!(contains_str("abc", ""));
    assert!(!contains_str("ab", "abc"));
    assert!(!contains_str("HEA", "HEAD"));
    assert!(contains_str("xxHEAD", "HEAD"));
}

#[test]
fn string_of_chars() {
    assert_eq!(string_of(&['a', 'é', '😀']), "aé😀");
    assert_eq!(string_of(&[]), "");
}

#[test]
fn decimal_reads_back() {
    for n in [0u32, 1, 9, 10, 255, 65536, 4294967295] {
        assert_eq!(parse_u32(&decimal(n)), Some(n));
    }
}

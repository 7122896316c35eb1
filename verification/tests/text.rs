use withgenie_setup::text::{
    ascii_lower_char, chars_of, contains_chars, copy_range, first_line_of,
    first_nonblank_line_of, is_white_space_char, join_strs, lowercase_ascii, same_text,
    starts_with_chars, str_contains, str_starts_with, string_of, trim_chars, trim_str,
};

const SAMPLES: [&str; 8] = [
    "",
    "plain",
    "  padded\t\n",
    "\u{3000}전각 공백\u{3000}",
    "\u{a0}nbsp\u{85}",
    "line one\nline two",
    "\r\n\r\n",
    "x\u{200b}y",
];

#[test]
fn trimming_agrees_with_str_trim() {
    for s in SAMPLES {
        assert_eq!(trim_str(s), s.trim());
        assert_eq!(string_of(&trim_chars(&chars_of(s))), s.trim());
    }
}

#[test]
fn white_space_agrees_with_char_is_whitespace() {
    for c in ['\t', '\n', '\u{b}', '\u{c}', '\r', ' ', '\u{85}', '\u{a0}', '\u{1680}', '\u{2000}', '\u{200a}', '\u{2028}', '\u{2029}', '\u{202f}', '\u{205f}', '\u{3000}', 'a', '\u{200b}', '\u{feff}', '가'] {
        assert_eq!(is_white_space_char(c), c.is_whitespace(), "{c:?}");
    }
}

#[test]
fn chars_round_trip_and_ranges() {
    let v = chars_of("위드지니 setup");
    assert_eq!(string_of(&v), "위드지니 setup");
    assert_eq!(string_of(&copy_range(&v, 5, 10)), "setup");
    assert_eq!(copy_range(&v, 3, 3), Vec::<char>::new());
}

#[test]
fn search_agrees_with_str_methods() {
    let cases = [("sh: git: command not found", "not found"), ("abc", ""), ("", "a"), ("aab", "ab"), ("v24.1.0", "v24.")];
    for (s, p) in cases {
        assert_eq!(str_contains(s, p), s.contains(p));
        assert_eq!(str_starts_with(s, p), s.starts_with(p));
        assert_eq!(contains_chars(&chars_of(s), &chars_of(p)), s.contains(p));
        assert_eq!(starts_with_chars(&chars_of(s), &chars_of(p)), s.starts_with(p));
    }
    assert!(same_text("node.version", "node.version"));
    assert!(!same_text("node.version", "node.versio"));
}

#[test]
fn ascii_case_folding_leaves_other_characters() {
    assert_eq!(ascii_lower_char('Q'), 'q');
    assert_eq!(ascii_lower_char('Ä'), 'Ä');
    let s = "Already INSTALLED – 설치됨";
    assert_eq!(string_of(&lowercase_ascii(s)), s.to_ascii_lowercase());
}

#[test]
fn lines_follow_str_lines() {
    assert_eq!(first_line_of("first\nsecond"), "first");
    assert_eq!(first_line_of("only"), "only");
    assert_eq!(first_line_of("\nafter"), "");
    for s in ["abc\r\ndef", "x\r", "\r\n", "a\rb\nc"] {
        assert_eq!(first_line_of(s), s.lines().next().unwrap_or(""));
    }
    assert_eq!(first_nonblank_line_of("\n \n  third  \n").as_deref(), Some("third"));
    assert_eq!(first_nonblank_line_of("   "), None);
}

#[test]
fn joining_puts_the_separator_between_parts() {
    assert_eq!(join_strs(&vec!["install", "-g", "pnpm@latest"], " "), "install -g pnpm@latest");
    assert_eq!(join_strs(&vec!["one"], ", "), "one");
    assert_eq!(join_strs(&vec![], " "), "");
}

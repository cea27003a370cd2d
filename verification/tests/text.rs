use lang_changer::text::{
    chars_of, contains_str, split_lines, starts_with_str, str_eq, str_le, strip_prefix_str,
    trim_str,
};

#[test]
fn split_lines_like_std() {
    let cases = ["a\r\nb\n\nc\r", "", "\n", "x", "x\n", "a\r\r\nb", "\r\n\r\n", "one\ntwo\r\n"];
    for case in cases {
        let ours = split_lines(case);
        let std_lines: Vec<String> = case.lines().map(|l| l.to_string()).collect();
        assert_eq!(ours, std_lines, "case {:?}", case);
    }
    assert_eq!(split_lines("a\r\nb\n\nc\r"), vec!["a", "b", "", "c\r"]);
}

#[test]
fn trim_like_std() {
    let cases = [" \t x \u{3000}", "", "   ", "a b", "\u{85}y\u{2009}", "\r\nz\r"];
    for case in cases {
        assert_eq!(trim_str(case), case.trim(), "case {:?}", case);
    }
    assert_eq!(trim_str(" \t x \u{3000}"), "x");
}

#[test]
fn comparisons() {
    assert!(str_eq("abc", "abc"));
    assert!(!str_eq("abc", "abd"));
    assert!(!str_eq("ab", "abc"));
    assert!(starts_with_str("LANG=de", "LANG="));
    assert!(!starts_with_str("LANG", "LANG="));
    assert_eq!(strip_prefix_str("LANG=de", "LANG="), Some("de"));
    assert_eq!(strip_prefix_str("XLANG=de", "LANG="), None);
    assert!(contains_str("deutsch (germany)", "germ"));
    assert!(contains_str("abc", ""));
    assert!(!contains_str("abc", "abcd"));
    assert!(!contains_str("abc", "ac"));
    assert_eq!(chars_of("añ"), vec!['a', 'ñ']);
}

#[test]
fn lexicographic_order_agrees_with_string_order() {
    let words = ["", "a", "ab", "b", "B", "é", "z", "aé", "C.utf8", "C"];
    for a in words {
        for b in words {
            assert_eq!(str_le(a, b), a <= b, "{:?} {:?}", a, b);
        }
    }
}

#[test]
fn whitespace_set_is_that_of_std() {
    for code in 0u32..=0x10FFFF {
        if let Some(c) = char::from_u32(code) {
            let one = c.to_string();
            assert_eq!(trim_str(&one).is_empty(), c.is_whitespace(), "U+{:04X}", code);
        }
    }
}

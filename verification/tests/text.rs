use openesoui_mm::decimal::{append_decimal, parse_u16_span};
use openesoui_mm::path::{join_path, resolve_name};
use openesoui_mm::text::{
    chars_of, span_has_prefix, split_spans, strip_span, trim, CharClass, Span,
};

fn pieces(text: &str, sep: CharClass) -> Vec<String> {
    let chars = chars_of(text);
    split_spans(&chars, sep)
        .iter()
        .map(|span| chars[span.start..span.end].iter().collect())
        .collect()
}

fn stripped(text: &str, class: CharClass) -> String {
    let chars = chars_of(text);
    let span = strip_span(&chars, Span { start: 0, end: chars.len() }, class);
    chars[span.start..span.end].iter().collect()
}

fn resolved(name: &str) -> Option<Vec<String>> {
    let chars = chars_of(name);
    resolve_name(&chars).map(|spans| {
        spans.iter().map(|span| chars[span.start..span.end].iter().collect()).collect()
    })
}

fn joined(root: &str, name: &str) -> String {
    let chars = chars_of(name);
    let spans = resolve_name(&chars).unwrap();
    join_path(root, name, &spans, spans.len())
}

#[test]
fn chars_are_copied_in_order() {
    assert_eq!(chars_of(""), Vec::<char>::new());
    assert_eq!(chars_of("a\u{00E4}z"), vec!['a', '\u{00E4}', 'z']);
}

#[test]
fn classes_hold_their_characters() {
    for c in ['\t', '\n', '\u{000B}', '\u{000C}', '\r', ' ', '\u{0085}', '\u{00A0}', '\u{1680}',
        '\u{2000}', '\u{200A}', '\u{2028}', '\u{2029}', '\u{202F}', '\u{205F}', '\u{3000}']
    {
        assert!(CharClass::Whitespace.contains(c));
    }
    for c in ['a', '0', '\u{0008}', '\u{000E}', '\u{200B}', '\u{FEFF}', '"'] {
        assert!(!CharClass::Whitespace.contains(c));
    }
    assert!(CharClass::Quote.contains('"'));
    assert!(!CharClass::Quote.contains('\''));
    assert!(CharClass::Comma.contains(','));
    assert!(!CharClass::Comma.contains(';'));
    assert!(CharClass::Semicolon.contains(';'));
    assert!(!CharClass::Semicolon.contains(','));
    assert!(CharClass::PathSeparator.contains('/'));
    assert!(CharClass::PathSeparator.contains('\\'));
    assert!(!CharClass::PathSeparator.contains('.'));
}

#[test]
fn whitespace_agrees_with_the_standard_library() {
    for code in 0u32..0x3100 {
        if let Some(c) = char::from_u32(code) {
            assert_eq!(CharClass::Whitespace.contains(c), c.is_whitespace());
        }
    }
}

#[test]
fn split_gives_one_piece_more_than_separators() {
    assert_eq!(pieces("", CharClass::Comma), vec![""]);
    assert_eq!(pieces("a", CharClass::Comma), vec!["a"]);
    assert_eq!(pieces("a,b", CharClass::Comma), vec!["a", "b"]);
    assert_eq!(pieces(",a,,b,", CharClass::Comma), vec!["", "a", "", "b", ""]);
    assert_eq!(pieces("a/b\\c", CharClass::PathSeparator), vec!["a", "b", "c"]);
}

#[test]
fn split_agrees_with_the_standard_library() {
    for text in ["", ";", "a;b", ";;", "a; b ;c;", "no separator"] {
        let expected: Vec<String> = text.split(';').map(|piece| piece.to_string()).collect();
        assert_eq!(pieces(text, CharClass::Semicolon), expected);
    }
}

#[test]
fn strip_narrows_both_ends() {
    assert_eq!(stripped("  a b \t\n", CharClass::Whitespace), "a b");
    assert_eq!(stripped("   ", CharClass::Whitespace), "");
    assert_eq!(stripped("", CharClass::Whitespace), "");
    assert_eq!(stripped("\"\"x\"y\"", CharClass::Quote), "x\"y");
    assert_eq!(stripped("x", CharClass::Quote), "x");
}

#[test]
fn strip_works_inside_a_span() {
    let chars = chars_of("ab  cd  ef");
    let span = strip_span(&chars, Span { start: 2, end: 8 }, CharClass::Whitespace);
    assert_eq!(span, Span { start: 4, end: 6 });
    let empty = strip_span(&chars, Span { start: 2, end: 4 }, CharClass::Whitespace);
    assert_eq!(empty.start, empty.end);
}

#[test]
fn prefix_is_tested_inside_a_span() {
    let chars = chars_of("xfilename=a");
    let key = chars_of("filename=");
    assert!(span_has_prefix(&chars, Span { start: 1, end: 11 }, &key));
    assert!(span_has_prefix(&chars, Span { start: 1, end: 10 }, &key));
    assert!(!span_has_prefix(&chars, Span { start: 1, end: 9 }, &key));
    assert!(!span_has_prefix(&chars, Span { start: 0, end: 11 }, &key));
    assert!(span_has_prefix(&chars, Span { start: 3, end: 3 }, &Vec::new()));
}

#[test]
fn decimal_is_written_without_leading_zeros() {
    for (n, expected) in
        [(0u16, "0"), (7, "7"), (10, "10"), (99, "99"), (100, "100"), (4063, "4063"), (65535, "65535")]
    {
        let mut out = String::from("id ");
        append_decimal(&mut out, n);
        assert_eq!(out, format!("id {}", expected));
    }
}

#[test]
fn decimal_is_read_back() {
    for n in [0u16, 1, 9, 10, 255, 256, 4063, 65534, 65535] {
        let mut text = String::new();
        append_decimal(&mut text, n);
        let chars = chars_of(&text);
        assert_eq!(parse_u16_span(&chars, Span { start: 0, end: chars.len() }), Some(n));
    }
}

#[test]
fn numbers_are_read_from_a_span() {
    let chars = chars_of("id=+0042;");
    assert_eq!(parse_u16_span(&chars, Span { start: 3, end: 8 }), Some(42));
    assert_eq!(parse_u16_span(&chars, Span { start: 4, end: 8 }), Some(42));
    assert_eq!(parse_u16_span(&chars, Span { start: 3, end: 4 }), None);
    assert_eq!(parse_u16_span(&chars, Span { start: 3, end: 3 }), None);
    assert_eq!(parse_u16_span(&chars, Span { start: 0, end: 8 }), None);
    assert_eq!(parse_u16_span(&chars, Span { start: 4, end: 9 }), None);
}

#[test]
fn names_resolve_to_their_components() {
    assert_eq!(resolved("a/b/c.txt"), Some(vec!["a".to_string(), "b".to_string(), "c.txt".to_string()]));
    assert_eq!(resolved("a/d/"), Some(vec!["a".to_string(), "d".to_string()]));
    assert_eq!(resolved("a\\b"), Some(vec!["a".to_string(), "b".to_string()]));
    assert_eq!(resolved("./a//b/."), Some(vec!["a".to_string(), "b".to_string()]));
    assert_eq!(resolved("a/../b"), Some(vec!["b".to_string()]));
    assert_eq!(resolved("a/b/../.."), Some(Vec::new()));
    assert_eq!(resolved(""), Some(Vec::new()));
    assert_eq!(resolved("."), Some(Vec::new()));
    assert_eq!(resolved("..."), Some(vec!["...".to_string()]));
    assert_eq!(resolved("..a/b.."), Some(vec!["..a".to_string(), "b..".to_string()]));
}

#[test]
fn names_that_leave_the_root_resolve_to_nothing() {
    assert_eq!(resolved("../../evil.txt"), None);
    assert_eq!(resolved(".."), None);
    assert_eq!(resolved("a/../../b"), None);
    assert_eq!(resolved("a/..\\..\\b"), None);
    assert_eq!(resolved("/etc/passwd"), None);
    assert_eq!(resolved("\\windows"), None);
    assert_eq!(resolved("/."), None);
    assert_eq!(resolved("//a"), None);
    assert_eq!(resolved("a/b/../../../a/b"), None);
}

#[test]
fn names_of_separators_alone_resolve_to_the_root() {
    assert_eq!(resolved("/"), Some(Vec::new()));
    assert_eq!(resolved("\\"), Some(Vec::new()));
    assert_eq!(resolved("//\\/"), Some(Vec::new()));
}

#[test]
fn trim_drops_white_space_at_both_ends() {
    assert_eq!(trim("  a b \t\n"), "a b");
    assert_eq!(trim("2.1 "), "2.1");
    assert_eq!(trim("\u{3000}x\u{0085}"), "x");
    assert_eq!(trim(" \r\n "), "");
    assert_eq!(trim(""), "");
    assert_eq!(trim("kept"), "kept");
    for text in ["", " a ", "\u{00A0}b\u{2003}", "c\u{200B}", "\u{FEFF}d "] {
        assert_eq!(trim(text), text.trim());
    }
}

#[test]
fn paths_are_joined_with_single_slashes() {
    assert_eq!(joined("T", "a/b/c.txt"), "T/a/b/c.txt");
    assert_eq!(joined("T/", "a/b"), "T/a/b");
    assert_eq!(joined("", "a/b"), "a/b");
    assert_eq!(joined("/", "a"), "/a");
    assert_eq!(joined("T", "a\\b"), "T/a/b");
    assert_eq!(joined("T", ""), "T");
    assert_eq!(joined("/srv/add ons", "x/../y"), "/srv/add ons/y");
}

#[test]
fn join_can_stop_early() {
    let name = "a/b/c.txt";
    let chars = chars_of(name);
    let spans = resolve_name(&chars).unwrap();
    assert_eq!(join_path("T", name, &spans, 0), "T");
    assert_eq!(join_path("T", name, &spans, 2), "T/a/b");
}

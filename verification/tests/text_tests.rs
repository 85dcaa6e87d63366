use sdfdesk_bridge::text::{fields_of, is_whitespace, lines_of, text_contains};

const SAMPLES: [&str; 24] = [
    "",
    "a",
    "a\n",
    "a\nb",
    "a\r\nb\r\n",
    "\n",
    "\n\n",
    "a\r",
    "a\r\r\n",
    "\r\n",
    "\r",
    "a\n\rb",
    "\r\n\r\n",
    "one two\tthree\n four \r\n",
    "  ",
    " a  b\tc\n",
    "a\u{a0}b",
    "a\u{3000}b\u{2003}c",
    "\u{e9}t\u{e9} \u{fc}\n\u{4e2d}\u{6587}\r\n",
    " SESSIONNAME  USERNAME  ID  STATE\n rdp-tcp#0  user  2  Active\n",
    "a\u{200b}b",
    "a\u{180e}b",
    "a\u{85}b\u{2028}c\u{2029}d",
    "x\u{b}y\u{c}z",
];

#[test]
fn lines_end_at_line_feeds() {
    assert_eq!(lines_of(""), Vec::<String>::new());
    assert_eq!(lines_of("a"), vec!["a"]);
    assert_eq!(lines_of("a\n"), vec!["a"]);
    assert_eq!(lines_of("a\nb"), vec!["a", "b"]);
    assert_eq!(lines_of("a\n\nb\n"), vec!["a", "", "b"]);
    assert_eq!(lines_of("\n"), vec![""]);
}

#[test]
fn a_carriage_return_before_a_line_feed_ends_the_line_with_it() {
    assert_eq!(lines_of("a\r\nb\r\n"), vec!["a", "b"]);
    assert_eq!(lines_of("a\r\r\n"), vec!["a\r"]);
    assert_eq!(lines_of("a\r"), vec!["a\r"]);
    assert_eq!(lines_of("a\rb\n"), vec!["a\rb"]);
    assert_eq!(lines_of("\r\n"), vec![""]);
}

#[test]
fn lines_are_those_of_the_standard_library() {
    for text in SAMPLES {
        let expected: Vec<String> = text.lines().map(str::to_owned).collect();
        assert_eq!(lines_of(text), expected, "{:?}", text);
    }
}

#[test]
fn fields_are_the_runs_between_whitespace() {
    assert_eq!(fields_of(""), Vec::<String>::new());
    assert_eq!(fields_of(" \t\r\n"), Vec::<String>::new());
    assert_eq!(fields_of("a"), vec!["a"]);
    assert_eq!(fields_of("  a  bc\td "), vec!["a", "bc", "d"]);
    assert_eq!(fields_of("a\u{a0}b\u{3000}c"), vec!["a", "b", "c"]);
    assert_eq!(fields_of("a\u{200b}b"), vec!["a\u{200b}b"]);
}

#[test]
fn fields_are_those_of_the_standard_library() {
    for text in SAMPLES {
        let expected: Vec<String> = text.split_whitespace().map(str::to_owned).collect();
        assert_eq!(fields_of(text), expected, "{:?}", text);
    }
}

#[test]
fn whitespace_is_the_unicode_property() {
    let mut count = 0;
    for code in 0..=0x10ffffu32 {
        if let Some(c) = char::from_u32(code) {
            assert_eq!(is_whitespace(c), c.is_whitespace(), "U+{:04X}", code);
            if is_whitespace(c) {
                count += 1;
            }
        }
    }
    assert_eq!(count, 25);
}

#[test]
fn a_needle_is_found_wherever_it_stands() {
    assert!(text_contains("", ""));
    assert!(text_contains("abc", ""));
    assert!(!text_contains("", "a"));
    assert!(text_contains("abc", "abc"));
    assert!(text_contains("abc", "a"));
    assert!(text_contains("abc", "bc"));
    assert!(!text_contains("abc", "abcd"));
    assert!(!text_contains("abc", "ac"));
    assert!(text_contains("aab", "ab"));
    assert!(text_contains(" rdp-tcp#0  user  2  Active", "rdp-tcp"));
    assert!(!text_contains(" console  user  1  Active", "Disc"));
    assert!(text_contains("\u{e9}t\u{e9}", "t\u{e9}"));
    assert!(!text_contains("\u{e9}t\u{e9}", "te"));
}

#[test]
fn finding_agrees_with_the_standard_library() {
    for haystack in SAMPLES {
        for needle in ["", "a", "b\r", "\n", " ", "rdp-tcp", "Active\n", "\u{e9}", "two\tthree"] {
            assert_eq!(
                text_contains(haystack, needle),
                haystack.contains(needle),
                "{:?} in {:?}",
                needle,
                haystack
            );
        }
    }
}

use claude_status::text::{display_width, repeat_str, str_contains, str_eq, strip_ansi, visible_width};

#[test]
fn strip_removes_sgr_and_osc_sequences() {
    assert_eq!(strip_ansi("\x1b[31mred\x1b[0m"), "red");
    assert_eq!(strip_ansi("\x1b[1;38;5;196mA\x1b[0mB"), "AB");
    assert_eq!(strip_ansi("\x1b]8;;https://example.com\x07link\x1b]8;;\x07"), "link");
    assert_eq!(strip_ansi("\x1b]8;;url\x1b\\x"), "x");
    assert_eq!(strip_ansi("plain"), "plain");
    assert_eq!(strip_ansi(""), "");
}

#[test]
fn visible_width_counts_only_printable_cells() {
    let s = "\x1b[32m日本\x1b[0m ab\x1b]8;;https://x\x07c\x1b]8;;\x07";
    assert_eq!(visible_width(s), 2 + 2 + 1 + 2 + 1);
    assert_eq!(display_width("héllo"), 5);
    assert_eq!(display_width("日本"), 4);
    assert_eq!(display_width("a\u{301}"), 1);
    assert_eq!(display_width(""), 0);
}

#[test]
fn string_helpers() {
    assert!(str_eq("abc", "abc"));
    assert!(!str_eq("abc", "abd"));
    assert!(str_contains("xterm-256color", "256color"));
    assert!(!str_contains("xterm", "256color"));
    assert!(str_contains("x", ""));
    assert_eq!(repeat_str("ab", 3), "ababab");
    assert_eq!(repeat_str("ab", 0), "");
}

use mcp_runner::ansi::{ansi_to_html, decode_lossy, strip_ansi};

#[test]
fn strip_ansi_removes_color_codes() {
    let input = "\x1b[31mERROR\x1b[0m: something failed";
    let result = strip_ansi(input);
    assert_eq!(result, "ERROR: something failed");
}

#[test]
fn strip_ansi_removes_cursor_movement() {
    // CSI sequences: cursor up, cursor position, etc.
    let input = "\x1b[2J\x1b[H\x1b[1;1HHello";
    let result = strip_ansi(input);
    assert_eq!(result, "Hello");
}

#[test]
fn strip_ansi_preserves_plain_text() {
    let input = "Just a normal line with no escapes";
    let result = strip_ansi(input);
    assert_eq!(result, input);
}

#[test]
fn strip_ansi_handles_bold_underline_combos() {
    let input = "\x1b[1m\x1b[4mBold Underline\x1b[0m normal";
    let result = strip_ansi(input);
    assert_eq!(result, "Bold Underline normal");
}

#[test]
fn strip_ansi_handles_256_color() {
    let input = "\x1b[38;5;196mRed text\x1b[0m";
    let result = strip_ansi(input);
    assert_eq!(result, "Red text");
}

#[test]
fn strip_ansi_handles_empty_string() {
    let input = "";
    let result = strip_ansi(input);
    assert_eq!(result, "");
}

#[test]
fn ansi_to_html_basic_color() {
    let input = "\x1b[31mred text\x1b[0m";
    let result = ansi_to_html(input);
    // Should contain some HTML span/style for red
    assert!(result.contains("red text"));
    assert!(result.contains("<") || result.contains("style"));
}

#[test]
fn ansi_to_html_plain_text_passthrough() {
    let input = "no escapes here";
    let result = ansi_to_html(input);
    assert_eq!(result, "no escapes here");
}

#[test]
fn ansi_to_html_empty_string() {
    let result = ansi_to_html("");
    assert_eq!(result, "");
}

#[test]
fn strip_ansi_leaves_no_control_characters() {
    assert_eq!(strip_ansi("a\tb\rc\u{7}d\ne\u{9b}f"), "abcd\nef");
    assert_eq!(strip_ansi("\u{e9}\u{1f600}\u{7f}"), "\u{e9}\u{1f600}\u{7f}");
    assert_eq!(strip_ansi("\x1b]0;title\x07text"), "text");
}

#[test]
fn ansi_to_html_escapes_special_characters() {
    assert_eq!(ansi_to_html("<a href=\"x\">&'</a>"), "&lt;a href=&quot;x&quot;&gt;&amp;&#39;&lt;/a&gt;");
}

#[test]
fn ansi_to_html_falls_back_to_plain_text() {
    assert_eq!(ansi_to_html("\x1b[38;5;999mred\x1b[0m <b>"), "red <b>");
}

#[test]
fn decoding_replaces_malformed_bytes() {
    assert_eq!(decode_lossy(b"ok \xf0\x9f\x98\x80"), "ok \u{1f600}");
    assert_eq!(decode_lossy(b"a\xffb\xc3"), "a\u{fffd}b\u{fffd}");
}

#[test]
fn strip_ansi_twice_is_strip_ansi_once() {
    for s in ["\x1b[31mred\x1b[0m", "a\u{9b}31m\u{85}b", "\x1b\x1b[[1mx", "\x1b(B\x1b]0;t", ""] {
        let once = strip_ansi(s);
        assert!(!once.contains('\x1b'));
        assert_eq!(strip_ansi(&once), once);
    }
}

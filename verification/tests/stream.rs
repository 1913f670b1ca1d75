use mcp_runner::stream::{
    event_mode, page_mode, present_content, read_complete_lines, show_line, AnsiMode,
};

#[test]
fn read_complete_lines_from_start() {
    let log = "line1\nline2\nline3\n".as_bytes().to_vec();

    let lines = read_complete_lines(&log, 0);
    assert_eq!(lines.len(), 3);
    assert_eq!(lines[0], (1, "line1".to_string()));
    assert_eq!(lines[1], (2, "line2".to_string()));
    assert_eq!(lines[2], (3, "line3".to_string()));
}

#[test]
fn read_complete_lines_skips_seen() {
    let log = "line1\nline2\nline3\n".as_bytes().to_vec();

    let lines = read_complete_lines(&log, 2);
    assert_eq!(lines.len(), 1);
    assert_eq!(lines[0], (3, "line3".to_string()));
}

#[test]
fn read_complete_lines_ignores_incomplete_last_line() {
    // "partial" has no trailing newline, should be ignored
    let log = "line1\nline2\npartial".as_bytes().to_vec();

    let lines = read_complete_lines(&log, 0);
    assert_eq!(lines.len(), 2);
    assert_eq!(lines[0], (1, "line1".to_string()));
    assert_eq!(lines[1], (2, "line2".to_string()));
}

#[test]
fn read_complete_lines_no_newline_at_all() {
    let log = "incomplete data".as_bytes().to_vec();

    let lines = read_complete_lines(&log, 0);
    assert_eq!(lines.len(), 0);
}

#[test]
fn read_complete_lines_strips_cr() {
    let log = "line1\r\nline2\r\n".as_bytes().to_vec();

    let lines = read_complete_lines(&log, 0);
    assert_eq!(lines.len(), 2);
    assert_eq!(lines[0], (1, "line1".to_string()));
    assert_eq!(lines[1], (2, "line2".to_string()));
}

#[test]
fn read_complete_lines_empty_file() {
    let log = "".as_bytes().to_vec();

    let lines = read_complete_lines(&log, 0);
    assert_eq!(lines.len(), 0);
}

#[test]
fn read_complete_lines_all_seen() {
    let log = "a\nb\nc\n".as_bytes().to_vec();

    let lines = read_complete_lines(&log, 3);
    assert_eq!(lines.len(), 0);
}

#[test]
fn read_complete_lines_incremental_append() {
    // Initial write
    let mut log = "first\n".as_bytes().to_vec();
    let lines = read_complete_lines(&log, 0);
    assert_eq!(lines.len(), 1);
    assert_eq!(lines[0], (1, "first".to_string()));

    // Append more
    log.extend_from_slice(b"second\nthird\n");

    let lines = read_complete_lines(&log, 1);
    assert_eq!(lines.len(), 2);
    assert_eq!(lines[0], (2, "second".to_string()));
    assert_eq!(lines[1], (3, "third".to_string()));
}

#[test]
fn read_complete_lines_shows_what_a_terminal_shows() {
    let lines = read_complete_lines(b"10%\r99%\r\n\ncaf\xe9\n", 0);
    assert_eq!(
        lines,
        [
            (1, "99%".to_string()),
            (2, "".to_string()),
            (3, "caf\u{fffd}".to_string()),
        ]
    );
}

#[test]
fn modes_follow_the_query() {
    assert_eq!(page_mode(true, true), AnsiMode::Raw);
    assert_eq!(page_mode(false, true), AnsiMode::Strip);
    assert_eq!(page_mode(false, false), AnsiMode::Html);
    assert_eq!(event_mode(true), AnsiMode::Raw);
    assert_eq!(event_mode(false), AnsiMode::Strip);
}

#[test]
fn content_is_presented_in_each_mode() {
    let log = b"\x1b[31m<red>\x1b[0m";
    assert_eq!(present_content(log, AnsiMode::Raw), "\x1b[31m<red>\x1b[0m");
    assert_eq!(present_content(log, AnsiMode::Strip), "<red>");
    let html = present_content(log, AnsiMode::Html);
    assert!(html.contains("&lt;red&gt;"));
    assert!(html.contains("<span"));
}

#[test]
fn a_line_is_shown_as_on_a_terminal() {
    assert_eq!(show_line("1%\r2%\r\r"), "2%");
    assert_eq!(show_line(""), "");
}

#[test]
fn lines_are_numbered_as_the_log_grows() {
    let first = read_complete_lines(b"a\nb\xc3", 0);
    assert_eq!(first, [(1, "a".to_string())]);
    let second = read_complete_lines(b"a\nb\xc3\xa9\n", 1);
    assert_eq!(second, [(2, "b\u{e9}".to_string())]);
}

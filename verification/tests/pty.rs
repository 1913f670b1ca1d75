use mcp_runner::pty::normalize_pty_output;

#[test]
fn normalize_crlf_to_lf() {
    let input = "line1\r\nline2\r\nline3";
    let result = normalize_pty_output(input);
    assert_eq!(result, "line1\nline2\nline3");
}

#[test]
fn normalize_carriage_return_overwrites() {
    // Progress bar: "0%\r50%\r100%"
    let input = "0%\r50%\r100%";
    let result = normalize_pty_output(input);
    assert_eq!(result, "100%");
}

#[test]
fn normalize_mixed_cr_and_crlf() {
    // Line with progress (CR overwrite) followed by normal CRLF lines
    let input = "downloading...\r50%\r100%\r\ndone\r\n";
    let result = normalize_pty_output(input);
    assert_eq!(result, "100%\ndone\n");
}

#[test]
fn normalize_no_special_chars() {
    let input = "plain output\nno special chars\n";
    let result = normalize_pty_output(input);
    assert_eq!(result, input);
}

#[test]
fn normalize_spinner_overwrite() {
    // Simulated spinner: |\r/\r-\r\\\rDone
    let input = "|\r/\r-\r\\\rDone";
    let result = normalize_pty_output(input);
    assert_eq!(result, "Done");
}

#[test]
fn normalize_cr_at_start_of_line() {
    let input = "\rOverwritten start";
    let result = normalize_pty_output(input);
    assert_eq!(result, "Overwritten start");
}

#[test]
fn normalize_multiline_with_cr_on_some_lines() {
    let input = "line1\npartial\rfull\nline3";
    let result = normalize_pty_output(input);
    assert_eq!(result, "line1\nfull\nline3");
}

#[test]
fn normalize_empty_string() {
    assert_eq!(normalize_pty_output(""), "");
}

#[test]
fn normalize_only_cr() {
    let input = "\r";
    let result = normalize_pty_output(input);
    assert_eq!(result, "");
}

#[test]
fn normalize_crlf_only() {
    let input = "\r\n\r\n";
    let result = normalize_pty_output(input);
    assert_eq!(result, "\n\n");
}

#[test]
fn normalize_keeps_empty_lines() {
    assert_eq!(normalize_pty_output("\n\nfoo\rbar\n\n"), "\n\nbar\n\n");
    assert_eq!(normalize_pty_output("\r\n\r\nx"), "\n\nx");
}

#[test]
fn normalize_twice_is_normalize_once() {
    for s in ["a\r\r\nb", "\r", "x\ry\r\nz", "1%\r2%\n\r\n", ""] {
        let once = normalize_pty_output(s);
        assert!(!once.contains('\r'));
        assert_eq!(once.matches('\n').count(), s.matches('\n').count());
        assert_eq!(normalize_pty_output(&once), once);
    }
}

#[test]
fn normalize_goes_line_by_line() {
    let (a, b) = ("1%\r2%\n", "done\r\nx\ry");
    let whole = normalize_pty_output(&format!("{}{}", a, b));
    assert_eq!(whole, normalize_pty_output(a) + &normalize_pty_output(b));
}

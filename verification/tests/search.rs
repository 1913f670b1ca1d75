use mcp_runner::protocol::{ErrorCode, SearchOutputArgs};
use mcp_runner::search::{report_matches, search_output, search_result};

#[test]
fn search_finds_matching_lines() {
    let content = "line1 OK\nline2 ERROR fail\nline3 OK\nline4 ERROR again\n";
    let matches = search_output(content, "ERROR", 20);
    assert_eq!(matches.len(), 2);
    assert_eq!(matches[0], "2: line2 ERROR fail");
    assert_eq!(matches[1], "4: line4 ERROR again");
}

#[test]
fn search_respects_max_results() {
    let content = "error1\nerror2\nerror3\nerror4\nerror5\n";
    let matches = search_output(content, "error", 3);
    assert_eq!(matches.len(), 3);
    assert_eq!(matches[2], "3: error3");
}

#[test]
fn search_no_matches() {
    let content = "everything is fine\nall good\n";
    let matches = search_output(content, "ERROR", 20);
    assert!(matches.is_empty());
}

#[test]
fn search_case_sensitive() {
    let content = "Error on line 1\nERROR on line 2\nerror on line 3\n";
    let matches = search_output(content, "ERROR", 20);
    assert_eq!(matches.len(), 1);
    assert_eq!(matches[0], "2: ERROR on line 2");
}

#[test]
fn search_strips_ansi_before_matching() {
    let content = "\x1b[31mERROR\x1b[0m: something failed\nnormal line\n";
    let matches = search_output(content, "ERROR", 20);
    assert_eq!(matches.len(), 1);
    assert!(matches[0].contains("ERROR: something failed"));
}

#[test]
fn search_normalizes_pty_output() {
    // Progress line overwritten, final value contains the match
    let content = "building\r50%\r100% DONE\nnext line\n";
    let matches = search_output(content, "DONE", 20);
    assert_eq!(matches.len(), 1);
    assert!(matches[0].contains("DONE"));
}

#[test]
fn search_empty_content() {
    let matches = search_output("", "anything", 20);
    assert!(matches.is_empty());
}

#[test]
fn search_empty_pattern_matches_all() {
    let content = "line1\nline2\nline3\n";
    let matches = search_output(content, "", 20);
    assert_eq!(matches.len(), 3);
}

#[test]
fn search_line_numbers_are_1_indexed() {
    let content = "first\nsecond\nthird\n";
    let matches = search_output(content, "second", 20);
    assert_eq!(matches[0], "2: second");
}

fn request(pattern: &str, max_results: Option<usize>) -> SearchOutputArgs {
    SearchOutputArgs {
        session_id: "1".to_string(),
        pattern: pattern.to_string(),
        stderr: false,
        max_results,
    }
}

#[test]
fn search_report_names_count_and_lines() {
    let log = "line1 OK\nline2 ERROR fail\nline3 OK\nline4 ERROR again\n".to_string();
    let text = search_result(&request("ERROR", None), Ok(log)).unwrap();
    assert_eq!(text, "2 match(es) for \"ERROR\":\n2: line2 ERROR fail\n4: line4 ERROR again");
}

#[test]
fn search_report_says_when_it_stops() {
    let text = search_result(&request("e", Some(2)), Ok("e1\ne2\ne3\n".to_string())).unwrap();
    assert_eq!(text, "2 match(es) for \"e\":\n1: e1\n2: e2\n(showing first 2 matches)");
}

#[test]
fn search_report_without_matches() {
    let text = search_result(&request("ERROR", None), Ok("fine\n".to_string())).unwrap();
    assert_eq!(text, "No matches for \"ERROR\"");
    assert_eq!(report_matches(&Vec::new(), "x", 20), "No matches for \"x\"");
}

#[test]
fn search_returns_twenty_lines_unless_told_otherwise() {
    let log = "e\n".repeat(30);
    let text = search_result(&request("e", None), Ok(log)).unwrap();
    assert!(text.starts_with("20 match(es) for \"e\":\n1: e\n"));
    assert!(text.ends_with("20: e\n(showing first 20 matches)"));
}

#[test]
fn search_for_no_lines_returns_none() {
    assert!(search_output("a\na\n", "a", 0).is_empty());
}

#[test]
fn search_of_an_unreadable_log_fails() {
    let e = search_result(&request("x", None), Err("no such file".to_string())).unwrap_err();
    assert_eq!(e.code, ErrorCode::InternalError);
    assert_eq!(e.message, "no such file");
}

#[test]
fn search_ends_lines_at_crlf_too() {
    assert_eq!(search_output("a\r\nb\r\nlast", "", 20), ["1: a", "2: b", "3: last"]);
}

use mcp_runner::protocol::{ReadOutputArgs, SendInputArgs};
use mcp_runner::wait::{clean, read_report, AnswerStep, InputWait, OutputWait};

const MS: u64 = 1_000_000;

fn read_args(timeout_ms: Option<u64>, wait_for: Option<&str>) -> ReadOutputArgs {
    ReadOutputArgs {
        session_id: "1".to_string(),
        strip_ansi: true,
        timeout_ms,
        wait_for: wait_for.map(|p| p.to_string()),
    }
}

fn send_args(wait: Option<bool>, wait_for: Option<&str>, idle: Option<u64>) -> SendInputArgs {
    SendInputArgs {
        session_id: "1".to_string(),
        input: None,
        bytes: None,
        no_enter: None,
        elicit: None,
        elicit_message: None,
        wait,
        wait_for: wait_for.map(|p| p.to_string()),
        await_response_ms: idle,
    }
}

fn answer(step: AnswerStep) -> Option<String> {
    match step {
        AnswerStep::Return(text) => Some(text),
        AnswerStep::Continue { .. } => None,
    }
}

#[test]
fn output_is_cleaned_for_the_reader() {
    assert_eq!(clean("a\r\n1%\r2%\x1b[1m!\x1b[0m", true), "a\n2%!");
    assert_eq!(clean("a\r\n1%\r2%\x1b[1m!\x1b[0m", false), "a\n2%\x1b[1m!\x1b[0m");
}

#[test]
fn a_read_ends_with_the_notice() {
    let notice = "[process exited with code 0]".to_string();
    assert_eq!(
        read_report("done\n", true, Some(notice)),
        "done\n\n[process exited with code 0]\n"
    );
    assert_eq!(read_report("done\n", true, None), "done\n");
}

#[test]
fn a_plain_read_does_not_wait() {
    assert!(OutputWait::begin(&read_args(None, None), 0).is_none());
}

#[test]
fn a_read_returns_when_output_stops() {
    let mut w = OutputWait::begin(&read_args(Some(5000), None), 0).unwrap();
    assert_eq!(w.step("", None, 400 * MS), None);
    assert_eq!(w.step("one\n", None, 450 * MS), None);
    assert_eq!(w.step("", None, 749 * MS), None);
    assert_eq!(w.step("", None, 750 * MS), Some("one\n".to_string()));
}

#[test]
fn a_read_times_out() {
    let mut w = OutputWait::begin(&read_args(Some(100), None), 0).unwrap();
    assert_eq!(w.step("", None, 99 * MS), None);
    assert_eq!(w.step("", None, 100 * MS), Some("(timeout, no output)".to_string()));
    let mut w = OutputWait::begin(&read_args(Some(100), Some("x")), 0).unwrap();
    assert_eq!(w.step("abc", None, 50 * MS), None);
    assert_eq!(w.step("", None, 100 * MS), Some("abc\n(timeout)\n".to_string()));
}

#[test]
fn a_read_waits_thirty_seconds_by_default() {
    let mut w = OutputWait::begin(&read_args(None, Some("x")), 7).unwrap();
    assert_eq!(w.step("a", None, 29_999 * MS), None);
    assert_eq!(w.step("", None, 30_000 * MS + 7), Some("a\n(timeout)\n".to_string()));
}

#[test]
fn a_read_returns_at_the_pattern() {
    let mut w = OutputWait::begin(&read_args(Some(10_000), Some("BUILD_DONE")), 0).unwrap();
    assert_eq!(w.step("BUILD_", None, 50 * MS), None);
    assert_eq!(w.step("", None, 2_000 * MS), None);
    assert_eq!(w.step("DONE\n", None, 2_050 * MS), Some("BUILD_DONE\n".to_string()));
}

#[test]
fn a_read_returns_at_the_end_of_the_process() {
    let notice = "[process exited with code 1]".to_string();
    let mut w = OutputWait::begin(&read_args(Some(10_000), Some("never")), 0).unwrap();
    assert_eq!(
        w.step("last", Some(notice), 50 * MS),
        Some("last\n[process exited with code 1]\n".to_string())
    );
}

#[test]
fn a_sender_waits_only_when_asked() {
    assert!(InputWait::begin(&send_args(None, None, None), 0).is_none());
    assert!(InputWait::begin(&send_args(Some(false), None, None), 0).is_none());
    assert!(InputWait::begin(&send_args(Some(true), None, None), 0).is_some());
    assert!(InputWait::begin(&send_args(None, Some("$"), None), 0).is_some());
    assert!(InputWait::begin(&send_args(None, None, Some(5)), 0).is_some());
}

#[test]
fn an_answer_ends_after_a_second_of_silence() {
    let mut w = InputWait::begin(&send_args(Some(true), None, None), 0).unwrap();
    assert_eq!(answer(w.step("pong\n", None, 50 * MS)), None);
    assert_eq!(answer(w.step("", None, 1_049 * MS)), None);
    assert_eq!(answer(w.step("", None, 1_050 * MS)), Some("pong\n".to_string()));
}

#[test]
fn an_answer_that_does_not_come_is_told() {
    let mut w = InputWait::begin(&send_args(None, None, Some(200)), 0).unwrap();
    assert_eq!(answer(w.step("", None, 199 * MS)), None);
    assert_eq!(answer(w.step("", None, 200 * MS)), Some("Input sent (no response)".to_string()));
}

#[test]
fn a_sender_gives_up_on_a_pattern_after_five_seconds() {
    let mut w = InputWait::begin(&send_args(None, Some("$"), None), 0).unwrap();
    assert_eq!(answer(w.step("out", None, 1_000 * MS)), None);
    assert_eq!(answer(w.step("", None, 5_999 * MS)), None);
    assert_eq!(answer(w.step("", None, 6_000 * MS)), Some("out".to_string()));
}

#[test]
fn a_sender_returns_at_the_pattern() {
    let mut w = InputWait::begin(&send_args(None, Some("$"), None), 0).unwrap();
    assert_eq!(answer(w.step("ls\r\n", None, 50 * MS)), None);
    assert_eq!(
        answer(w.step("file\r\n\x1b[32m$\x1b[0m ", None, 100 * MS)),
        Some("ls\nfile\n$ ".to_string())
    );
}

#[test]
fn a_sender_returns_at_the_end_of_the_process() {
    let mut w = InputWait::begin(&send_args(Some(true), None, None), 0).unwrap();
    let notice = "[process exited with code 0]".to_string();
    assert_eq!(
        answer(w.step("bye", Some(notice), 50 * MS)),
        Some("bye\n[process exited with code 0]\n".to_string())
    );
}

#[test]
fn a_sender_never_waits_longer_than_thirty_seconds() {
    let mut w = InputWait::begin(&send_args(Some(true), None, None), 0).unwrap();
    assert_eq!(answer(w.step("a", None, 29_999 * MS)), None);
    assert_eq!(
        answer(w.step("b", None, 30_000 * MS)),
        Some("ab\n(30s wall-time cap reached)\n".to_string())
    );
}

#[test]
fn a_waiting_sender_reports_progress_every_second() {
    let mut w = InputWait::begin(&send_args(None, Some("$"), None), 0).unwrap();
    assert!(matches!(w.step("a", None, 999 * MS), AnswerStep::Continue { report: false }));
    assert!(matches!(w.step("b", None, 1_000 * MS), AnswerStep::Continue { report: true }));
    assert!(matches!(w.step("c", None, 1_999 * MS), AnswerStep::Continue { report: false }));
    assert!(matches!(w.step("d", None, 2_000 * MS), AnswerStep::Continue { report: true }));
}

use mcp_runner::log::{flush_lines, LogPipe, LogTarget};
use mcp_runner::protocol::{err, resource_not_found, ErrorCode, LoggingLevel};
use mcp_runner::runner::Runner;

fn level_value(level: &str) -> u8 {
    mcp_runner::protocol::level_value(match level {
        "debug" => LoggingLevel::Debug,
        "info" => LoggingLevel::Info,
        "notice" => LoggingLevel::Notice,
        "warning" => LoggingLevel::Warning,
        "error" => LoggingLevel::Error,
        "critical" => LoggingLevel::Critical,
        "alert" => LoggingLevel::Alert,
        "emergency" => LoggingLevel::Emergency,
        _ => panic!("no such level"),
    })
}

#[test]
fn level_ordering_debug_lowest() {
    assert!(level_value("debug") < level_value("info"));
    assert!(level_value("debug") < level_value("emergency"));
}

#[test]
fn level_ordering_emergency_highest() {
    assert!(level_value("emergency") > level_value("alert"));
    assert!(level_value("emergency") > level_value("debug"));
}

#[test]
fn level_ordering_monotonic() {
    let levels = [
        "debug",
        "info",
        "notice",
        "warning",
        "error",
        "critical",
        "alert",
        "emergency",
    ];
    for window in levels.windows(2) {
        assert!(
            level_value(window[0]) < level_value(window[1]),
            "{} should be less than {}",
            window[0],
            window[1]
        );
    }
}

#[test]
fn level_filtering_respects_minimum() {
    // Simulate: min_level = warning, check which messages get through
    let min = level_value("warning");
    assert!(level_value("debug") < min, "debug should be filtered out");
    assert!(level_value("info") < min, "info should be filtered out");
    assert!(level_value("notice") < min, "notice should be filtered out");
    assert!(level_value("warning") >= min, "warning should pass");
    assert!(level_value("error") >= min, "error should pass");
    assert!(level_value("critical") >= min, "critical should pass");
}

#[test]
fn level_values_are_the_ranks() {
    assert_eq!(level_value("debug"), 0);
    assert_eq!(level_value("warning"), 3);
    assert_eq!(level_value("emergency"), 7);
}

#[test]
fn errors_carry_code_and_message() {
    let e = err("boom");
    assert_eq!(e.code, ErrorCode::InternalError);
    assert_eq!(e.message, "boom");
    let e = resource_not_found("gone");
    assert_eq!(e.code, ErrorCode::ResourceNotFound);
    assert_eq!(e.message, "gone");
}

#[test]
fn log_messages_below_the_level_are_dropped() {
    let mut runner: Runner<u32, u32> = Runner::new();
    let message = runner.notify_log(LoggingLevel::Debug, "a", "text").unwrap();
    assert_eq!(message.level, LoggingLevel::Debug);
    assert_eq!(message.logger, "a");
    assert_eq!(message.data, "text");
    runner.set_level(LoggingLevel::Warning);
    assert!(runner.notify_log(LoggingLevel::Notice, "a", "text").is_none());
    assert!(runner.notify_log(LoggingLevel::Warning, "a", "text").is_some());
}

fn target() -> LogTarget {
    LogTarget { logger: "session/1/stdout".to_string(), level: LoggingLevel::Info }
}

#[test]
fn flush_takes_complete_lines() {
    let mut buf = b"one\n\n  \ntwo \x1b[31mred\x1b[0m \r\n10%\r20%\nrest".to_vec();
    let messages = flush_lines(&mut buf, &Some(target()), LoggingLevel::Debug, false);
    let texts: Vec<&str> = messages.iter().map(|m| m.data.as_str()).collect();
    assert_eq!(texts, ["one", "two red", "20%"]);
    assert_eq!(messages[0].logger, "session/1/stdout");
    assert_eq!(messages[0].level, LoggingLevel::Info);
    assert_eq!(buf, b"rest");
}

#[test]
fn flush_all_takes_the_rest_too() {
    let mut buf = b"one\nrest".to_vec();
    let messages = flush_lines(&mut buf, &Some(target()), LoggingLevel::Debug, true);
    assert_eq!(messages.len(), 2);
    assert_eq!(messages[1].data, "rest");
    assert!(buf.is_empty());
}

#[test]
fn flush_without_target_logs_nothing() {
    let mut buf = b"one\nrest".to_vec();
    assert!(flush_lines(&mut buf, &None, LoggingLevel::Debug, false).is_empty());
    assert_eq!(buf, b"one\nrest");
    assert!(flush_lines(&mut buf, &None, LoggingLevel::Debug, true).is_empty());
    assert!(buf.is_empty());
}

#[test]
fn flush_below_the_level_still_takes_the_lines() {
    let mut buf = b"one\nrest".to_vec();
    assert!(flush_lines(&mut buf, &Some(target()), LoggingLevel::Warning, false).is_empty());
    assert_eq!(buf, b"rest");
}

#[test]
fn logged_lines_do_not_depend_on_the_chunks() {
    let data = "alpha\nbeta\n\u{e9}t\u{e9}\ngamma".as_bytes();
    for cut in 0..=data.len() {
        let mut pipe = LogPipe::new(Some(target()));
        let mut texts: Vec<String> = Vec::new();
        for chunk in [&data[..cut], &data[cut..]] {
            texts.extend(pipe.chunk(chunk, LoggingLevel::Debug).into_iter().map(|m| m.data));
        }
        texts.extend(pipe.eof(LoggingLevel::Debug).into_iter().map(|m| m.data));
        assert_eq!(texts, ["alpha", "beta", "\u{e9}t\u{e9}", "gamma"]);
    }
}

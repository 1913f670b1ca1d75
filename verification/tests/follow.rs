use mcp_runner::follow::{
    initial_offset, parse_last_event_id, LogStream, SseEvent, StreamNext,
};
use mcp_runner::stream::AnsiMode;

/// The id and the data of each event for a line.
fn lines(events: &[SseEvent]) -> Vec<(u64, &str)> {
    events
        .iter()
        .map(|e| {
            assert_eq!(e.event, None);
            (e.id.unwrap(), e.data.as_str())
        })
        .collect()
}

#[test]
fn last_event_id_is_a_number() {
    assert_eq!(parse_last_event_id(Some("42")), Some(42));
    assert_eq!(parse_last_event_id(Some("+42")), Some(42));
    assert_eq!(parse_last_event_id(Some("18446744073709551615")), Some(u64::MAX));
    assert_eq!(parse_last_event_id(Some("18446744073709551616")), None);
    assert_eq!(parse_last_event_id(Some("-1")), None);
    assert_eq!(parse_last_event_id(Some("")), None);
    assert_eq!(parse_last_event_id(Some("+")), None);
    assert_eq!(parse_last_event_id(Some(" 1")), None);
    assert_eq!(parse_last_event_id(None), None);
}

#[test]
fn a_follower_starts_behind_the_last_event_or_at_the_query() {
    assert_eq!(initial_offset(Some("7"), Some("3")), 7);
    assert_eq!(initial_offset(Some("x"), Some("3")), 3);
    assert_eq!(initial_offset(None, Some("y")), 0);
    assert_eq!(initial_offset(None, None), 0);
}

#[test]
fn ids_are_the_byte_offsets_behind_the_lines() {
    let mut stream = LogStream::new(0, AnsiMode::Raw);
    let (events, next) = stream.poll(Some(false), Some(b"ab\ncd\n"));
    assert_eq!(lines(&events), [(3, "ab"), (6, "cd")]);
    assert_eq!(next, StreamNext::Drain);
    assert_eq!(stream.offset, 6);
}

#[test]
fn ids_count_bytes_and_not_characters() {
    let mut stream = LogStream::new(0, AnsiMode::Strip);
    let log = "\u{e9}t\u{e9}\r\n\x1b[1m10%\r99%\x1b[0m\n\n".as_bytes();
    let (events, _) = stream.poll(Some(true), Some(log));
    assert_eq!(lines(&events), [(7, "\u{e9}t\u{e9}"), (23, "99%"), (24, "")]);
}

#[test]
fn a_follower_gets_each_line_once() {
    let mut stream = LogStream::new(0, AnsiMode::Strip);
    let (events, next) = stream.poll(Some(true), Some(b"one\ntw"));
    assert_eq!(next, StreamNext::Wait);
    assert_eq!(lines(&events), [(4, "one")]);
    assert_eq!(stream.offset, 4);
    let (events, next) = stream.poll(Some(false), Some(b"one\ntwo\n"));
    assert_eq!(next, StreamNext::Drain);
    assert_eq!(lines(&events), [(8, "two")]);
    let events = stream.drain(Some(b"one\ntwo\n\x1b[1mthree\x1b[0m\n"));
    assert_eq!(events.len(), 2);
    assert_eq!(lines(&events[..1]), [(22, "three")]);
    assert_eq!(events[1].id, None);
    assert_eq!(events[1].event, Some("done".to_string()));
    assert_eq!(events[1].data, "[process exited]");
    assert_eq!(stream.offset, 22);
}

#[test]
fn a_follower_that_comes_back_gets_the_lines_that_are_left() {
    let log = b"one\ntwo\nthree\nfour";
    let mut stream = LogStream::new(0, AnsiMode::Raw);
    let (all, _) = stream.poll(Some(true), Some(log));
    let all = lines(&all);
    for k in 0..all.len() {
        let header = all[k].0.to_string();
        let mut back = LogStream::new(initial_offset(Some(&header), Some("0")), AnsiMode::Raw);
        let (events, _) = back.poll(Some(true), Some(log));
        assert_eq!(lines(&events), all[k + 1..]);
    }
}

#[test]
fn a_follower_ends_with_its_session_or_its_log() {
    let mut stream = LogStream::new(0, AnsiMode::Raw);
    let (events, next) = stream.poll(None, Some(b"one\n"));
    assert!(events.is_empty());
    assert_eq!(next, StreamNext::End);
    let (events, next) = stream.poll(Some(true), None);
    assert!(events.is_empty());
    assert_eq!(next, StreamNext::End);
    assert_eq!(stream.drain(None).len(), 1);
}

#[test]
fn a_follower_that_is_ahead_of_the_log_waits() {
    let mut stream = LogStream::new(5, AnsiMode::Raw);
    let (events, next) = stream.poll(Some(true), Some(b"one\n"));
    assert!(events.is_empty());
    assert_eq!(next, StreamNext::Wait);
    assert_eq!(stream.offset, 5);
}

#[test]
fn a_character_may_arrive_in_two_parts() {
    let mut stream = LogStream::new(0, AnsiMode::Raw);
    let (events, _) = stream.poll(Some(true), Some(b"one\nt\xc3"));
    assert_eq!(events.len(), 1);
    let (events, _) = stream.poll(Some(true), Some(b"one\nt\xc3\xa9\n"));
    assert_eq!(lines(&events), [(8, "t\u{e9}")]);
}

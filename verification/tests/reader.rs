use mcp_runner::reader::read_from_position;

#[test]
fn read_from_position_start() {
    let log = "hello world".as_bytes().to_vec();

    let (data, new_pos) = read_from_position(&log, 0);
    assert_eq!(data, "hello world");
    assert_eq!(new_pos, 11);
}

#[test]
fn read_from_position_middle() {
    let log = "hello world".as_bytes().to_vec();

    let (data, new_pos) = read_from_position(&log, 6);
    assert_eq!(data, "world");
    assert_eq!(new_pos, 11);
}

#[test]
fn read_from_position_at_end() {
    let log = "hello".as_bytes().to_vec();

    let (data, new_pos) = read_from_position(&log, 5);
    assert_eq!(data, "");
    assert_eq!(new_pos, 5);
}

#[test]
fn read_from_position_past_end() {
    let log = "hi".as_bytes().to_vec();

    let (data, new_pos) = read_from_position(&log, 100);
    assert_eq!(data, "");
    assert_eq!(new_pos, 100);
}

#[test]
fn read_from_position_empty_file() {
    let log = "".as_bytes().to_vec();

    let (data, new_pos) = read_from_position(&log, 0);
    assert_eq!(data, "");
    assert_eq!(new_pos, 0);
}

#[test]
fn read_from_position_incremental() {
    // Write initial content
    let mut log = "line1\n".as_bytes().to_vec();
    let (data, pos) = read_from_position(&log, 0);
    assert_eq!(data, "line1\n");
    assert_eq!(pos, 6);

    // Append more
    log.extend_from_slice(b"line2\n");

    let (data, pos) = read_from_position(&log, pos);
    assert_eq!(data, "line2\n");
    assert_eq!(pos, 12);
}

#[test]
fn read_from_position_replaces_malformed_bytes() {
    let (data, pos) = read_from_position(b"a\xffb", 0);
    assert_eq!(data, "a\u{fffd}b");
    assert_eq!(pos, 3);
}

#[test]
fn nothing_is_read_twice() {
    let log = b"line1\nline2\n";
    let (_, pos) = read_from_position(log, 3);
    assert_eq!(read_from_position(log, pos), (String::new(), 12));
}

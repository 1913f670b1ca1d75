use mcp_runner::protocol::{ErrorCode, StartCommandArgs};
use mcp_runner::resources::{parse_resource_uri, resource_contents};
use mcp_runner::runner::Runner;
use mcp_runner::session::ProcessHandle;

#[test]
fn parse_uri_stdout() {
    let (id, stream) = parse_resource_uri("session://1/stdout").unwrap();
    assert_eq!(id, "1");
    assert_eq!(stream, "stdout");
}

#[test]
fn parse_uri_stderr() {
    let (id, stream) = parse_resource_uri("session://42/stderr").unwrap();
    assert_eq!(id, "42");
    assert_eq!(stream, "stderr");
}

#[test]
fn parse_uri_invalid_prefix() {
    let result = parse_resource_uri("file:///tmp/foo");
    assert!(result.is_err());
    assert!(result.unwrap_err().contains("Unknown resource URI"));
}

#[test]
fn parse_uri_no_slash_in_rest() {
    let result = parse_resource_uri("session://nostreampart");
    assert!(result.is_err());
    assert!(result.unwrap_err().contains("Invalid resource URI"));
}

#[test]
fn parse_uri_empty_session_id() {
    // "session:///stdout" → id="" stream="stdout"
    let (id, stream) = parse_resource_uri("session:///stdout").unwrap();
    assert_eq!(id, "");
    assert_eq!(stream, "stdout");
}

#[test]
fn parse_uri_multi_segment_id() {
    // Unlikely but tests the rsplit_once behavior: "session://a/b/stdout"
    // rsplit_once('/') gives ("a/b", "stdout")
    let (id, stream) = parse_resource_uri("session://a/b/stdout").unwrap();
    assert_eq!(id, "a/b");
    assert_eq!(stream, "stdout");
}

fn server() -> Runner<u32, u32> {
    let mut c = Runner::new();
    for split in [false, true] {
        let plan = c.start_command(StartCommandArgs {
            command: "true".to_string(),
            args: None,
            label: None,
            working_dir: None,
            env: None,
            split_stderr: Some(split),
            use_pty: None,
            stream_log: None,
            timeout_seconds: None,
        });
        c.command_started(plan, ProcessHandle::Pipe(1));
    }
    c
}

#[test]
fn each_stream_is_a_resource() {
    let list = server().list_resources();
    let found: Vec<(&str, &str)> = list.iter().map(|r| (r.uri.as_str(), r.name.as_str())).collect();
    assert_eq!(
        found,
        [
            ("session://1/stdout", "Session 1 stdout"),
            ("session://2/stdout", "Session 2 stdout"),
            ("session://2/stderr", "Session 2 stderr"),
        ]
    );
}

#[test]
fn every_listed_resource_can_be_read() {
    let c = server();
    for resource in c.list_resources() {
        assert!(c.read_resource(&resource.uri).is_ok());
    }
    assert_eq!(c.read_resource("session://2/stderr").unwrap(), "/tmp/mcp_cmd_2_stderr.log");
}

#[test]
fn resources_that_are_missing_are_not_found() {
    let c = server();
    for (uri, message) in [
        ("file:///tmp/foo", "Unknown resource URI: file:///tmp/foo"),
        ("session://nostreampart", "Invalid resource URI: session://nostreampart"),
        ("session://9/stdout", "Session not found: 9"),
        ("session://1/stderr", "stderr not split for this session"),
        ("session://1/stdin", "Unknown stream: stdin"),
    ] {
        let e = c.read_resource(uri).unwrap_err();
        assert_eq!(e.code, ErrorCode::ResourceNotFound);
        assert_eq!(e.message, message);
    }
}

#[test]
fn a_resource_may_be_unreadable() {
    assert_eq!(resource_contents(Ok("text".to_string())).unwrap(), "text");
    let e = resource_contents(Err("denied".to_string())).unwrap_err();
    assert_eq!(e.code, ErrorCode::InternalError);
    assert_eq!(e.message, "denied");
}

#[test]
fn there_are_two_kinds_of_resources() {
    let kinds = server().list_resource_templates();
    assert_eq!(kinds.len(), 2);
    assert_eq!(kinds[0].uri_template, "session://{session_id}/stdout");
    assert_eq!(kinds[0].name, "Session stdout");
    assert_eq!(kinds[0].title, "Session stdout output");
    assert_eq!(kinds[0].description, "Full stdout output for a command session");
    assert_eq!(kinds[0].mime_type, "text/plain");
    assert_eq!(kinds[1].uri_template, "session://{session_id}/stderr");
    assert_eq!(kinds[1].name, "Session stderr");
    assert_eq!(kinds[1].title, "Session stderr output");
    assert_eq!(
        kinds[1].description,
        "Full stderr output for a command session (only if split_stderr was true)"
    );
}

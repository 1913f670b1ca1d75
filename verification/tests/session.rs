use mcp_runner::session::{
    cleanup_all_sessions, exit_code_from_status, reap_session, remove_session, ExitStatus,
    ProcessHandle, Session, Sessions,
};

#[test]
fn exit_code_normal_exit() {
    let status = ExitStatus { code: Some(0), signal: None };
    assert_eq!(exit_code_from_status(status), Some(0));
}

#[test]
fn exit_code_nonzero_exit() {
    let status = ExitStatus { code: Some(1), signal: None };
    assert_eq!(exit_code_from_status(status), Some(1));
}

#[test]
fn exit_code_custom_exit() {
    let status = ExitStatus { code: Some(42), signal: None };
    assert_eq!(exit_code_from_status(status), Some(42));
}

#[test]
fn exit_code_signal_kill() {
    let status = ExitStatus { code: None, signal: Some(9) };
    assert!(status.code.is_none());
    assert_eq!(status.signal, Some(9));
    assert_eq!(exit_code_from_status(status), Some(137)); // 128 + 9 = 137
}

#[test]
fn exit_code_unknown() {
    assert_eq!(exit_code_from_status(ExitStatus { code: None, signal: None }), None);
}

fn session(name: &str, stderr: bool) -> Session<u32, u32> {
    Session {
        process: Some(ProcessHandle::Pipe(7)),
        is_pty: false,
        label: None,
        command: name.to_string(),
        stdout_path: format!("/tmp/{name}_stdout.log"),
        stderr_path: if stderr { Some(format!("/tmp/{name}_stderr.log")) } else { None },
        stdout_pos: 0,
        stderr_pos: 0,
        exit_code: None,
        stream_log: false,
    }
}

#[test]
fn the_end_of_a_process_is_reported_once() {
    let mut s = session("a", false);
    assert_eq!(reap_session(&mut s, None), None);
    assert!(s.process.is_some());
    let ended = Some(ExitStatus { code: Some(3), signal: None });
    assert_eq!(reap_session(&mut s, ended), Some("[process exited with code 3]".to_string()));
    assert!(s.process.is_none());
    assert_eq!(s.exit_code, Some(3));
    let other = Some(ExitStatus { code: Some(4), signal: None });
    assert_eq!(reap_session(&mut s, other), None);
    assert_eq!(s.exit_code, Some(3));
}

#[test]
fn an_unknown_exit_code_is_shown_as_minus_one() {
    let mut s = session("a", false);
    let notice = reap_session(&mut s, Some(ExitStatus { code: None, signal: None }));
    assert_eq!(notice, Some("[process exited with code -1]".to_string()));
    assert_eq!(s.exit_code, None);
}

#[test]
fn a_removed_session_leaves_its_process_and_logs_to_clean_up() {
    let mut sessions: Sessions<u32, u32> = Sessions::new();
    sessions.insert("1".to_string(), session("a", true));
    sessions.insert("2".to_string(), session("b", false));
    let cleanup = remove_session("1", &mut sessions).unwrap();
    assert!(matches!(cleanup.process, Some(ProcessHandle::Pipe(7))));
    assert_eq!(cleanup.paths, ["/tmp/a_stdout.log", "/tmp/a_stderr.log"]);
    assert!(sessions.get("1").is_none());
    assert!(sessions.get("2").is_some());
    assert!(remove_session("1", &mut sessions).is_none());
}

#[test]
fn every_session_is_cleaned_up_at_the_end() {
    let mut sessions: Sessions<u32, u32> = Sessions::new();
    sessions.insert("1".to_string(), session("a", false));
    sessions.insert("2".to_string(), session("b", true));
    let all = cleanup_all_sessions(&mut sessions);
    assert_eq!(all.len(), 2);
    assert_eq!(all[0].paths, ["/tmp/a_stdout.log"]);
    assert_eq!(all[1].paths, ["/tmp/b_stdout.log", "/tmp/b_stderr.log"]);
    assert_eq!(sessions.len(), 0);
}

#[test]
fn a_session_replaces_one_with_its_id() {
    let mut sessions: Sessions<u32, u32> = Sessions::new();
    sessions.insert("1".to_string(), session("a", false));
    sessions.insert("2".to_string(), session("b", false));
    sessions.insert("1".to_string(), session("c", false));
    assert_eq!(sessions.len(), 2);
    assert_eq!(sessions.get("1").unwrap().command, "c");
    sessions.get_mut("2").unwrap().stdout_pos = 9;
    assert_eq!(sessions.get("2").unwrap().stdout_pos, 9);
}

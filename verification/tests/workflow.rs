use mcp_runner::control::KillOutcome;
use mcp_runner::ending::EndStage;
use mcp_runner::input::InputRequest;
use mcp_runner::output::OutputStream;
use mcp_runner::protocol::{
    ErrorCode, LoggingLevel, ReadOutputArgs, RunCommandArgs, SearchOutputArgs, SendInputArgs,
    SendSignalArgs, SessionIdArgs, StartCommandArgs,
};
use mcp_runner::run::{command_ran, run_command, RunOutcome};
use mcp_runner::runner::{Runner, StartPlan};
use mcp_runner::search::search_result;
use mcp_runner::session::{ExitStatus, ProcessHandle};
use mcp_runner::signal::Signal;
use mcp_runner::wait::{AnswerStep, InputWait, OutputWait};

type Server = Runner<u32, u32>;

const MS: u64 = 1_000_000;

fn command(command: &str, args: &[&str]) -> StartCommandArgs {
    StartCommandArgs {
        command: command.to_string(),
        args: if args.is_empty() {
            None
        } else {
            Some(args.iter().map(|a| a.to_string()).collect())
        },
        label: None,
        working_dir: None,
        env: None,
        split_stderr: None,
        use_pty: None,
        stream_log: None,
        timeout_seconds: None,
    }
}

fn start(c: &mut Server, args: StartCommandArgs) -> String {
    let plan = c.start_command(args);
    c.command_started(plan, ProcessHandle::Pipe(4711))
}

fn session(id: &str) -> SessionIdArgs {
    SessionIdArgs { session_id: id.to_string() }
}

fn read(id: &str, timeout_ms: Option<u64>, wait_for: Option<&str>) -> ReadOutputArgs {
    ReadOutputArgs {
        session_id: id.to_string(),
        strip_ansi: true,
        timeout_ms,
        wait_for: wait_for.map(|p| p.to_string()),
    }
}

fn input(id: &str, text: &str) -> SendInputArgs {
    SendInputArgs {
        session_id: id.to_string(),
        input: Some(text.to_string()),
        bytes: None,
        no_enter: None,
        elicit: None,
        elicit_message: None,
        wait: None,
        wait_for: None,
        await_response_ms: None,
    }
}

fn exited(code: i32) -> Option<ExitStatus> {
    Some(ExitStatus { code: Some(code), signal: None })
}

fn waited(c: &mut Server, id: &str, pattern: &str, timeout: u64, log: &str) -> String {
    let mut wait = OutputWait::begin(&read(id, Some(timeout), Some(pattern)), 0).unwrap();
    let look = c.await_output(id, &mut wait, Ok(Vec::new()), None, 50 * MS);
    assert_eq!(look.unwrap(), None);
    let look = c.await_output(id, &mut wait, Ok(log.as_bytes().to_vec()), None, 100 * MS);
    look.unwrap().unwrap()
}

#[test]
fn test_full_workflow() {
    let mut c: Server = Runner::new();

    // --- Start a simple command and read output ---
    let mut greeter = command("echo", &["hello world"]);
    greeter.label = Some("greeter".to_string());
    let text = start(&mut c, greeter);
    assert!(text.contains("session_id: 1"), "start_command: {}", text);

    let output = waited(&mut c, "1", "hello", 5000, "hello world\n");
    assert!(output.contains("hello world"), "read_output: {}", output);

    // --- List sessions shows the completed greeter ---
    let list = c.list_sessions(&vec![exited(0)]);
    assert_eq!(c.is_running("1", None), Some(false));
    assert!(list.contains("[greeter]"), "list_sessions: {}", list);
    assert!(list.contains("echo hello world"), "list_sessions cmd: {}", list);

    // --- Working directory and environment variables ---
    let mut args = command("sh", &["-c", "pwd && echo $TEST_VAR"]);
    args.working_dir = Some("/tmp".to_string());
    args.env = Some(vec![("TEST_VAR".to_string(), "mcp_works".to_string())]);
    let plan: StartPlan = c.start_command(args);
    assert_eq!(plan.working_dir.as_deref(), Some("/tmp"));
    assert_eq!(plan.env, Some(vec![("TEST_VAR".to_string(), "mcp_works".to_string())]));
    c.command_started(plan, ProcessHandle::Pipe(2));
    let output = waited(&mut c, "2", "mcp_works", 5000, "/tmp\nmcp_works\n");
    assert!(output.contains("/tmp"), "working_dir: {}", output);
    assert!(output.contains("mcp_works"), "env: {}", output);

    // --- Split stderr ---
    let mut args = command("sh", &["-c", "echo stdout_line; echo stderr_line >&2"]);
    args.split_stderr = Some(true);
    start(&mut c, args);
    let stdout = waited(&mut c, "3", "stdout_line", 5000, "stdout_line\n");
    assert!(stdout.contains("stdout_line"), "stdout: {}", stdout);
    assert!(!stdout.contains("stderr_line"), "stderr leaked to stdout: {}", stdout);
    let stderr = c
        .read_stderr(&read("3", None, None), Ok(b"stderr_line\n".to_vec()), None)
        .unwrap();
    assert!(stderr.contains("stderr_line"), "stderr: {}", stderr);

    // --- Search output ---
    start(
        &mut c,
        command(
            "sh",
            &[
                "-c",
                "echo line1 OK; echo line2 ERROR fail; echo line3 OK; echo line4 ERROR again",
            ],
        ),
    );
    let log = "line1 OK\nline2 ERROR fail\nline3 OK\nline4 ERROR again\n";
    waited(&mut c, "4", "line4", 5000, log);
    let args = SearchOutputArgs {
        session_id: "4".to_string(),
        pattern: "ERROR".to_string(),
        stderr: false,
        max_results: None,
    };
    assert_eq!(c.search_output(&args).unwrap(), "/tmp/mcp_cmd_4_stdout.log");
    let search = search_result(&args, Ok(log.to_string())).unwrap();
    assert!(search.contains("2 match"), "search count: {}", search);
    assert!(search.contains("ERROR fail"), "search content: {}", search);
    assert!(search.contains("ERROR again"), "search content2: {}", search);

    // --- Send input with await_response ---
    let mut args = command("cat", &[]);
    args.label = Some("echo-cat".to_string());
    start(&mut c, args);
    let mut ping = input("5", "ping");
    ping.await_response_ms = Some(2000);
    match c.send_input(&ping).unwrap() {
        InputRequest::Send(bytes) => assert_eq!(bytes, b"ping\n"),
        InputRequest::Ask { .. } => panic!("nobody is to be asked"),
    }
    let mut wait = InputWait::begin(&ping, 0).unwrap();
    let look = c.await_answer("5", &mut wait, Ok(b"ping\n".to_vec()), None, 50 * MS).unwrap();
    assert!(matches!(look, AnswerStep::Continue { report: false }));
    let look = c.await_answer("5", &mut wait, Ok(Vec::new()), None, 2_050 * MS).unwrap();
    match look {
        AnswerStep::Return(response) => {
            assert!(response.contains("ping"), "send_input response: {}", response)
        }
        AnswerStep::Continue { .. } => panic!("the answer is complete"),
    }

    // --- Send signal (SIGTERM) ---
    let mut args = command("sleep", &["60"]);
    args.label = Some("sleeper".to_string());
    start(&mut c, args);
    let args = SendSignalArgs { session_id: "6".to_string(), signal: "SIGTERM".to_string() };
    let (signal, process) = c.send_signal(&args).unwrap();
    assert_eq!(signal, Signal::Term);
    assert!(matches!(process, ProcessHandle::Pipe(4711)));
    let sig_result = c.signal_sent(&args, Some(ExitStatus { code: None, signal: Some(15) }));
    assert!(sig_result.contains("SIGTERM sent"), "signal: {}", sig_result);
    let status = c.get_status(&session("6"), None).unwrap();
    assert!(status.contains("Running: false"), "after signal: {}", status);
    assert_eq!(status, "Running: false, Exit code: Some(143)");

    // --- Stop command ---
    start(&mut c, command("sleep", &["60"]));
    assert!(matches!(c.stop_command(&session("7")).unwrap(), Some(ProcessHandle::Pipe(4711))));
    let ended = KillOutcome::Ended(ExitStatus { code: None, signal: Some(9) });
    let stop = c.command_stopped(&session("7"), ended).unwrap();
    assert!(stop.contains("stopped"), "stop: {}", stop);
    let status = c.get_status(&session("7"), None).unwrap();
    assert!(status.contains("Running: false"), "after stop: {}", status);

    // --- Delete session ---
    let (cleanup, del) = c.delete_session(&session("7")).unwrap();
    assert!(del.contains("deleted"), "delete: {}", del);
    assert!(cleanup.process.is_none());
    assert_eq!(cleanup.paths, ["/tmp/mcp_cmd_7_stdout.log"]);

    // --- wait_for with delayed output ---
    start(&mut c, command("sh", &["-c", "sleep 0.5 && echo BUILD_DONE"]));
    let wait_output = waited(&mut c, "8", "BUILD_DONE", 10000, "BUILD_DONE\n");
    assert!(wait_output.contains("BUILD_DONE"), "wait_for: {}", wait_output);

    // --- Timeout seconds (auto-kill) ---
    let mut args = command("sleep", &["60"]);
    args.timeout_seconds = Some(1);
    let plan = c.start_command(args);
    assert_eq!(plan.timeout_seconds, Some(1));
    assert_eq!(plan.ending(), EndStage::Limited(1));
    c.command_started(plan, ProcessHandle::Pipe(9));
    assert!(matches!(c.expire("9"), Some(ProcessHandle::Pipe(9))));
    let status = c.get_status(&session("9"), None).unwrap();
    assert!(status.contains("Running: false"), "timeout kill: {}", status);
    c.record_exit("9", ExitStatus { code: None, signal: Some(15) });
    let status = c.get_status(&session("9"), None).unwrap();
    assert_eq!(status, "Running: false, Exit code: Some(143)");

    // --- run_command (synchronous) ---
    let plan = run_command(RunCommandArgs {
        command: "sh".to_string(),
        args: Some(vec!["-c".to_string(), "echo built ok; echo warn >&2".to_string()]),
        working_dir: Some("/tmp".to_string()),
        env: None,
        timeout_seconds: None,
    });
    let outcome = RunOutcome::Finished {
        stdout: b"built ok\n".to_vec(),
        stderr: b"warn\n".to_vec(),
        status: ExitStatus { code: Some(0), signal: None },
    };
    let run_output = command_ran(outcome, plan.timeout_seconds).unwrap();
    assert!(run_output.contains("built ok"), "run_command stdout: {}", run_output);
    assert!(run_output.contains("[stderr]"), "run_command stderr label: {}", run_output);
    assert!(run_output.contains("warn"), "run_command stderr content: {}", run_output);
    assert!(run_output.contains("[exit code: 0]"), "run_command exit: {}", run_output);

    // --- send_input with wait:true (simplified API) ---
    let mut args = command("cat", &[]);
    args.label = Some("wait-test".to_string());
    start(&mut c, args);
    let mut request = input("10", "test_wait_true");
    request.wait = Some(true);
    let mut wait = InputWait::begin(&request, 0).unwrap();
    let data = b"test_wait_true\n".to_vec();
    c.await_answer("10", &mut wait, Ok(data), None, 50 * MS).unwrap();
    let look = c.await_answer("10", &mut wait, Ok(Vec::new()), None, 1_050 * MS).unwrap();
    match look {
        AnswerStep::Return(wait_resp) => {
            assert!(wait_resp.contains("test_wait_true"), "wait:true response: {}", wait_resp)
        }
        AnswerStep::Continue { .. } => panic!("the answer is complete"),
    }

    // --- Final session count ---
    let list = c.list_sessions(&vec![None; 9]);
    assert!(list.contains("Sessions:"), "final list: {}", list);
    assert!(!list.contains("session_id: 7"), "deleted session still in list");
    assert!(!list.contains("/session/7"));
}

#[test]
fn a_new_server_is_empty() {
    let mut c: Server = Runner::new();
    assert_eq!(c.list_sessions(&Vec::new()), "No sessions");
    assert_eq!(c.next_id, 1);
    assert_eq!(c.log_level, LoggingLevel::Debug);
    assert_eq!(c.http_base_url(), "http://localhost:0");
    assert!(c.session_ids().is_empty());
}

#[test]
fn a_start_says_where_to_follow() {
    let mut c: Server = Runner::new();
    c.http_port = 8089;
    assert_eq!(
        start(&mut c, command("true", &[])),
        "Started command with session_id: 1\nFollow: http://localhost:8089/session/1"
    );
}

#[test]
fn a_plan_says_where_everything_goes() {
    let mut c: Server = Runner::new();
    let mut args = command("make", &["-j", "8"]);
    args.split_stderr = Some(true);
    args.stream_log = Some(true);
    args.label = Some("build".to_string());
    let plan = c.start_command(args);
    assert_eq!(plan.session_id, "1");
    assert_eq!(plan.command, "make");
    assert_eq!(plan.args, ["-j", "8"]);
    assert_eq!(plan.command_line, "make -j 8");
    assert_eq!(plan.stdout_path, "/tmp/mcp_cmd_1_stdout.log");
    assert_eq!(plan.stderr_path.as_deref(), Some("/tmp/mcp_cmd_1_stderr.log"));
    assert_eq!(plan.stderr_sink(), "/tmp/mcp_cmd_1_stderr.log");
    assert_eq!(plan.stdout_uri, "session://1/stdout");
    assert_eq!(plan.stderr_uri, "session://1/stderr");
    let stdout_log = plan.stdout_log.unwrap();
    assert_eq!(stdout_log.logger, "session/1/stdout");
    assert_eq!(stdout_log.level, LoggingLevel::Info);
    let stderr_log = plan.stderr_log.unwrap();
    assert_eq!(stderr_log.logger, "session/1/stderr");
    assert_eq!(stderr_log.level, LoggingLevel::Warning);
    assert_eq!(c.next_id, 2);
}

#[test]
fn a_terminal_has_one_stream() {
    let mut c: Server = Runner::new();
    let mut args = command("picocom", &[]);
    args.split_stderr = Some(true);
    args.use_pty = Some(true);
    let plan = c.start_command(args);
    assert!(plan.use_pty);
    assert_eq!(plan.stderr_path, None);
    assert_eq!(plan.stderr_sink(), "/tmp/mcp_cmd_1_stdout.log");
    assert!(plan.stdout_log.is_none());
    assert_eq!(plan.command_line, "picocom");
}

#[test]
fn session_ids_start_over_after_the_last() {
    let mut c: Server = Runner::new();
    c.next_id = usize::MAX;
    assert_eq!(c.start_command(command("a", &[])).session_id, usize::MAX.to_string());
    assert_eq!(c.start_command(command("b", &[])).session_id, "0");
}

#[test]
fn a_session_that_failed_to_start_keeps_its_number() {
    let mut c: Server = Runner::new();
    c.start_command(command("missing", &[]));
    assert!(start(&mut c, command("true", &[])).contains("session_id: 2"));
    assert_eq!(c.session_ids(), ["2"]);
}

#[test]
fn sessions_are_listed_with_their_status() {
    let mut c: Server = Runner::new();
    c.http_port = 80;
    start(&mut c, command("one", &[]));
    let mut two = command("two", &["x"]);
    two.label = Some("second".to_string());
    start(&mut c, two);
    start(&mut c, command("three", &[]));
    c.expire("3");
    assert_eq!(
        c.list_sessions(&vec![None, exited(5), exited(6)]),
        "Sessions:\n  1: one (running) — http://localhost:80/session/1\n  2 [second]: two x (exited \
         (5)) — http://localhost:80/session/2\n  3: three (unknown) — http://localhost:80/session/3"
    );
}

#[test]
fn the_status_of_a_session_is_told() {
    let mut c: Server = Runner::new();
    start(&mut c, command("sleep", &["1"]));
    assert_eq!(c.get_status(&session("1"), None).unwrap(), "Running: true, Exit code: None");
    let status = c.get_status(&session("1"), exited(-3)).unwrap();
    assert_eq!(status, "Running: false, Exit code: Some(-3)");
}

#[test]
fn requests_need_a_session() {
    let mut c: Server = Runner::new();
    let missing = session("1");
    let signal = SendSignalArgs { session_id: "1".to_string(), signal: "SIGINT".to_string() };
    let mut messages = vec![
        c.get_status(&missing, None).err().unwrap(),
        c.stop_command(&missing).err().unwrap(),
        c.delete_session(&missing).err().unwrap(),
        c.send_signal(&signal).err().unwrap(),
        c.running_process("1").err().unwrap(),
        c.output_source("1", OutputStream::Stdout).err().unwrap(),
        c.read_output(&read("1", None, None), Ok(Vec::new()), None).err().unwrap(),
        c.read_stderr(&read("1", None, None), Ok(Vec::new()), None).err().unwrap(),
    ];
    let mut wait = OutputWait::begin(&read("1", Some(1), None), 0).unwrap();
    messages.push(c.await_output("1", &mut wait, Ok(Vec::new()), None, 0).err().unwrap());
    for e in messages {
        assert_eq!(e.code, ErrorCode::InternalError);
        assert_eq!(e.message, "Session not found");
    }
    assert!(c.expire("1").is_none());
    assert!(c.reap("1", exited(0)).is_none());
    assert_eq!(c.signal_sent(&signal, None), "Signal SIGINT sent");
}

#[test]
fn signals_need_a_running_process() {
    let mut c: Server = Runner::new();
    start(&mut c, command("true", &[]));
    c.reap("1", exited(0));
    let mut args = SendSignalArgs { session_id: "1".to_string(), signal: "sigint".to_string() };
    assert_eq!(c.send_signal(&args).err().unwrap().message, "Process not running");
    assert_eq!(c.running_process("1").err().unwrap().message, "Process not running");
    args.signal = "SIGFOO".to_string();
    assert_eq!(c.send_signal(&args).err().unwrap().message, "Unsupported signal: SIGFOO");
}

#[test]
fn a_kill_may_fail() {
    let mut c: Server = Runner::new();
    start(&mut c, command("true", &[]));
    c.stop_command(&session("1")).unwrap();
    let failed = KillOutcome::Failed("not permitted".to_string());
    assert_eq!(c.command_stopped(&session("1"), failed).unwrap_err().message, "not permitted");
    let stopped = c.command_stopped(&session("1"), KillOutcome::NotRunning).unwrap();
    assert_eq!(stopped, "Command stopped");
}

#[test]
fn reading_is_incremental() {
    let mut c: Server = Runner::new();
    start(&mut c, command("true", &[]));
    let log = b"one\ntwo\nthree\n";
    let request = read("1", None, None);
    assert_eq!(c.read_output(&request, Ok(log[..4].to_vec()), None).unwrap(), "one\n");
    let (path, pos) = c.output_source("1", OutputStream::Stdout).unwrap();
    assert_eq!(path, "/tmp/mcp_cmd_1_stdout.log");
    assert_eq!(pos, 4);
    let text = c.read_output(&request, Ok(log[4..].to_vec()), exited(0)).unwrap();
    assert_eq!(text, "two\nthree\n\n[process exited with code 0]\n");
    assert_eq!(c.output_source("1", OutputStream::Stdout).unwrap().1, 14);
    assert_eq!(c.read_output(&request, Ok(Vec::new()), exited(0)).unwrap(), "");
}

#[test]
fn escape_codes_are_kept_on_request() {
    let mut c: Server = Runner::new();
    start(&mut c, command("true", &[]));
    let mut request = read("1", None, None);
    let data = b"\x1b[1mbold\x1b[0m\r\n".to_vec();
    assert_eq!(c.read_output(&request, Ok(data.clone()), None).unwrap(), "bold\n");
    request.strip_ansi = false;
    assert_eq!(c.read_output(&request, Ok(data), None).unwrap(), "\x1b[1mbold\x1b[0m\n");
}

#[test]
fn a_read_that_fails_changes_nothing() {
    let mut c: Server = Runner::new();
    start(&mut c, command("true", &[]));
    let request = read("1", None, None);
    c.read_output(&request, Ok(b"abc".to_vec()), None).unwrap();
    let e = c.read_output(&request, Err("no such file".to_string()), exited(0)).unwrap_err();
    assert_eq!(e.message, "no such file");
    assert_eq!(c.output_source("1", OutputStream::Stdout).unwrap().1, 3);
    assert_eq!(c.get_status(&session("1"), None).unwrap(), "Running: true, Exit code: None");
}

#[test]
fn stderr_must_be_split_to_be_read() {
    let mut c: Server = Runner::new();
    start(&mut c, command("true", &[]));
    let e = c.read_stderr(&read("1", None, None), Ok(Vec::new()), None).unwrap_err();
    assert_eq!(e.message, "stderr not split for this session");
    let e = c.output_source("1", OutputStream::Stderr).unwrap_err();
    assert_eq!(e.message, "stderr not split for this session");
    let args = SearchOutputArgs {
        session_id: "1".to_string(),
        pattern: "x".to_string(),
        stderr: true,
        max_results: None,
    };
    assert_eq!(c.search_output(&args).unwrap_err().message, "stderr not split for this session");
}

#[test]
fn streams_are_read_apart() {
    let mut c: Server = Runner::new();
    let mut args = command("true", &[]);
    args.split_stderr = Some(true);
    start(&mut c, args);
    let request = read("1", None, None);
    c.read_output(&request, Ok(b"out".to_vec()), None).unwrap();
    c.read_stderr(&request, Ok(b"errors".to_vec()), None).unwrap();
    assert_eq!(c.output_source("1", OutputStream::Stdout).unwrap().1, 3);
    let (path, pos) = c.output_source("1", OutputStream::Stderr).unwrap();
    assert_eq!(path, "/tmp/mcp_cmd_1_stderr.log");
    assert_eq!(pos, 6);
}

#[test]
fn a_deleted_session_is_not_found() {
    let mut c: Server = Runner::new();
    start(&mut c, command("one", &[]));
    start(&mut c, command("two", &[]));
    c.delete_session(&session("1")).unwrap();
    let e = c.read_output(&read("1", None, None), Ok(Vec::new()), None).unwrap_err();
    assert_eq!(e.message, "Session not found");
    assert!(c.read_resource("session://1/stdout").is_err());
    assert_eq!(c.session_ids(), ["2"]);
}

#[test]
fn no_session_id_is_given_twice() {
    let mut c: Server = Runner::new();
    let first = c.start_command(command("one", &[]));
    let second = c.start_command(command("two", &[]));
    c.command_started(second, ProcessHandle::Pipe(2));
    c.delete_session(&session("2")).unwrap();
    let third = c.start_command(command("three", &[]));
    c.command_started(third, ProcessHandle::Pipe(3));
    c.command_started(first, ProcessHandle::Pipe(1));
    assert_eq!(c.session_ids(), ["3", "1"]);
}

#[test]
fn a_session_runs_until_its_process_has_ended() {
    let mut c: Server = Runner::new();
    let plan = c.start_command(command("true", &[]));
    assert_eq!(plan.ending(), EndStage::Over);
    c.command_started(plan, ProcessHandle::Pipe(1));
    assert_eq!(c.is_running("1", None), Some(true));
    assert_eq!(c.is_running("1", exited(0)), Some(false));
    c.expire("1");
    assert_eq!(c.is_running("1", None), Some(false));
    assert_eq!(c.is_running("2", None), None);
}

#[test]
fn every_session_is_reaped_by_its_own_poll() {
    let mut c: Server = Runner::new();
    start(&mut c, command("one", &[]));
    start(&mut c, command("two", &[]));
    start(&mut c, command("three", &[]));
    c.reap_all(&vec![exited(1), None, exited(3)]);
    assert_eq!(c.session_ids(), ["1", "2", "3"]);
    assert_eq!(c.get_status(&session("1"), None).unwrap(), "Running: false, Exit code: Some(1)");
    assert_eq!(c.get_status(&session("2"), None).unwrap(), "Running: true, Exit code: None");
    assert_eq!(c.get_status(&session("3"), None).unwrap(), "Running: false, Exit code: Some(3)");
}

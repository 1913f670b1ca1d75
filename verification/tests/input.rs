use mcp_runner::input::{
    input_written, line_bytes, take_elicited, ElicitOutcome, ElicitReply, InputRequest,
    WriteOutcome,
};
use mcp_runner::protocol::{ElicitedInput, SendInputArgs, StartCommandArgs};
use mcp_runner::runner::Runner;
use mcp_runner::session::ProcessHandle;

fn runner() -> Runner<u32, u32> {
    let mut runner = Runner::new();
    for use_pty in [false, true] {
        let plan = runner.start_command(StartCommandArgs {
            command: "cat".to_string(),
            args: None,
            label: None,
            working_dir: None,
            env: None,
            split_stderr: None,
            use_pty: Some(use_pty),
            stream_log: None,
            timeout_seconds: None,
        });
        let process = if use_pty { ProcessHandle::Pty(2) } else { ProcessHandle::Pipe(1) };
        runner.command_started(plan, process);
    }
    runner
}

fn request(id: &str) -> SendInputArgs {
    SendInputArgs {
        session_id: id.to_string(),
        input: None,
        bytes: None,
        no_enter: None,
        elicit: None,
        elicit_message: None,
        wait: None,
        wait_for: None,
        await_response_ms: None,
    }
}

fn sent(args: &SendInputArgs) -> Vec<u8> {
    match runner().send_input(args).unwrap() {
        InputRequest::Send(bytes) => bytes,
        InputRequest::Ask { .. } => panic!("nobody is to be asked"),
    }
}

#[test]
fn enter_is_appended_to_text() {
    let mut args = request("1");
    args.input = Some("ls".to_string());
    assert_eq!(sent(&args), b"ls\n");
    args.session_id = "2".to_string();
    assert_eq!(sent(&args), b"ls\r\n");
}

#[test]
fn white_space_at_the_end_is_trimmed() {
    let mut args = request("1");
    args.input = Some(" print('h\u{e9}') \t\n\n".to_string());
    assert_eq!(sent(&args), " print('h\u{e9}')\n".as_bytes());
    assert_eq!(line_bytes("   ", false), b"\n");
    assert_eq!(line_bytes(&String::from_utf8(line_bytes("a ", true)).unwrap(), true), b"a\r\n");
}

#[test]
fn text_without_enter_is_sent_as_it_is() {
    let mut args = request("2");
    args.input = Some("par \n".to_string());
    args.no_enter = Some(true);
    assert_eq!(sent(&args), b"par \n");
}

#[test]
fn bytes_are_sent_as_they_are() {
    let mut args = request("2");
    args.bytes = Some(vec![1, 24]);
    assert_eq!(sent(&args), [1, 24]);
}

#[test]
fn text_comes_before_bytes() {
    let mut args = request("1");
    args.input = Some("text".to_string());
    args.bytes = Some(vec![1, 24]);
    assert_eq!(sent(&args), b"text\n");
}

#[test]
fn something_must_be_sent() {
    let e = runner().send_input(&request("1")).err().unwrap();
    assert_eq!(e.message, "Provide 'input', 'bytes', or set 'elicit: true'");
}

#[test]
fn input_needs_a_session() {
    let e = runner().send_input(&request("9")).err().unwrap();
    assert_eq!(e.message, "Session not found");
}

#[test]
fn the_user_is_asked() {
    let mut args = request("2");
    args.elicit = Some(true);
    args.input = Some("ignored".to_string());
    match runner().send_input(&args).unwrap() {
        InputRequest::Ask { message, is_pty } => {
            assert_eq!(message, "Enter input for process");
            assert!(is_pty);
        }
        InputRequest::Send(_) => panic!("the user is to be asked"),
    }
    args.elicit_message = Some("Enter the sudo password".to_string());
    match runner().send_input(&args).unwrap() {
        InputRequest::Ask { message, .. } => assert_eq!(message, "Enter the sudo password"),
        InputRequest::Send(_) => panic!("the user is to be asked"),
    }
}

#[test]
fn what_the_user_says_is_sent_with_enter() {
    let given = ElicitOutcome::Provided(ElicitedInput { input: "secret ".to_string() });
    match take_elicited(given, true).unwrap() {
        ElicitReply::Send(bytes) => assert_eq!(bytes, b"secret\r\n"),
        ElicitReply::Answer(_) => panic!("the input is to be sent"),
    }
}

#[test]
fn a_user_may_refuse() {
    for (outcome, text) in [
        (ElicitOutcome::Declined, "User declined input"),
        (ElicitOutcome::Cancelled, "User cancelled input"),
    ] {
        match take_elicited(outcome, false).unwrap() {
            ElicitReply::Answer(answer) => assert_eq!(answer, text),
            ElicitReply::Send(_) => panic!("nothing is to be sent"),
        }
    }
}

#[test]
fn asking_may_fail() {
    for (outcome, text) in [
        (ElicitOutcome::Nothing, "User provided no input"),
        (ElicitOutcome::Unsupported, "Client does not support elicitation"),
        (ElicitOutcome::Failed("lost".to_string()), "Elicitation failed: lost"),
    ] {
        assert_eq!(take_elicited(outcome, false).err().unwrap().message, text);
    }
}

#[test]
fn writing_may_fail() {
    assert!(input_written(WriteOutcome::Written).is_ok());
    let e = input_written(WriteOutcome::NoStdin).unwrap_err();
    assert_eq!(e.message, "Process stdin not available");
    let e = input_written(WriteOutcome::Failed("broken pipe".to_string())).unwrap_err();
    assert_eq!(e.message, "broken pipe");
}

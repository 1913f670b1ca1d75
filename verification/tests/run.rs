use mcp_runner::protocol::RunCommandArgs;
use mcp_runner::run::{command_ran, format_run_output, run_command, RunOutcome};
use mcp_runner::session::ExitStatus;

#[test]
fn format_output_stdout_only() {
    let result = format_run_output("hello world\n", "", 0);
    assert_eq!(result, "hello world\n\n[exit code: 0]\n");
    assert!(!result.contains("[stderr]"));
}

#[test]
fn format_output_stderr_only() {
    let result = format_run_output("", "error msg\n", 1);
    assert!(result.contains("[stderr]"));
    assert!(result.contains("error msg"));
    assert!(result.contains("[exit code: 1]"));
}

#[test]
fn format_output_both_streams() {
    let result = format_run_output("output line\n", "warning\n", 0);
    assert!(result.contains("output line"));
    assert!(result.contains("[stderr]"));
    assert!(result.contains("warning"));
    assert!(result.contains("[exit code: 0]"));
    // stderr should come after stdout
    let stderr_pos = result.find("[stderr]").unwrap();
    let stdout_pos = result.find("output line").unwrap();
    assert!(stderr_pos > stdout_pos);
}

#[test]
fn format_output_strips_ansi_from_both() {
    let result = format_run_output(
        "\x1b[32mSUCCESS\x1b[0m\n",
        "\x1b[31mWARN\x1b[0m: something\n",
        0,
    );
    assert!(result.contains("SUCCESS"));
    assert!(!result.contains("\x1b["));
    assert!(result.contains("WARN: something"));
}

#[test]
fn format_output_negative_exit_code() {
    let result = format_run_output("", "", -1);
    assert!(result.contains("[exit code: -1]"));
}

#[test]
fn format_output_signal_exit_code() {
    // 128 + signal number (e.g., SIGTERM=15 → 143)
    let result = format_run_output("", "", 143);
    assert!(result.contains("[exit code: 143]"));
}

#[test]
fn format_output_puts_stderr_on_a_line_of_its_own() {
    assert_eq!(
        format_run_output("no newline", "oops", 2),
        "no newline\n[stderr]\noops\n[exit code: 2]\n"
    );
    assert_eq!(format_run_output("", "oops", 2), "[stderr]\noops\n[exit code: 2]\n");
    assert_eq!(format_run_output("", "", -2147483648), "\n[exit code: -2147483648]\n");
}

#[test]
fn command_that_finished_is_reported() {
    let outcome = RunOutcome::Finished {
        stdout: b"built ok\n".to_vec(),
        stderr: b"warn\xff\n".to_vec(),
        status: ExitStatus { code: Some(0), signal: None },
    };
    assert_eq!(
        command_ran(outcome, 300).unwrap(),
        "built ok\n[stderr]\nwarn\u{fffd}\n\n[exit code: 0]\n"
    );
}

#[test]
fn command_without_a_code_reports_minus_one() {
    let outcome = RunOutcome::Finished {
        stdout: Vec::new(),
        stderr: Vec::new(),
        status: ExitStatus { code: None, signal: None },
    };
    assert_eq!(command_ran(outcome, 300).unwrap(), "\n[exit code: -1]\n");
}

#[test]
fn command_that_took_too_long_is_reported() {
    assert_eq!(
        command_ran(RunOutcome::TimedOut, 7).unwrap(),
        "(command timed out after 7s, process killed)\n"
    );
}

#[test]
fn command_that_failed_to_start_is_an_error() {
    let e = command_ran(RunOutcome::Failed("not found".to_string()), 300).unwrap_err();
    assert_eq!(e.message, "not found");
}

#[test]
fn run_plan_fills_in_the_defaults() {
    let args = RunCommandArgs {
        command: "make".to_string(),
        args: None,
        working_dir: Some("/tmp".to_string()),
        env: None,
        timeout_seconds: None,
    };
    let plan = run_command(args);
    assert_eq!(plan.command, "make");
    assert!(plan.args.is_empty());
    assert_eq!(plan.working_dir, Some("/tmp".to_string()));
    assert_eq!(plan.timeout_seconds, 300);
}

//! Running a command to its end.

use vstd::prelude::*;

use crate::ansi::{
    decode_lossy, keeps_plain, keeps_valid, lossy_decoded, strip_ansi, stripped,
};
use crate::ending::{
    actions_from, first_stage, law_process_is_asked_before_it_is_killed, EndAction, EndStage,
};
use crate::protocol::{err, ErrorData, RunCommandArgs};
use crate::session::{code_or_unknown, exit_code_from_status, ExitStatus};
use crate::signal::Signal;
use crate::text::{
    chars_of, decimal, decimal_int, owned, push_decimal, push_decimal_int, texts,
};

verus! {

/// After how many seconds a command is ended where the request does not say.
pub const DEFAULT_RUN_TIMEOUT_SECONDS: u64 = 300;

/// Everything that is needed to run a command.
pub struct RunPlan {
    pub command: String,
    pub args: Vec<String>,
    pub working_dir: Option<String>,
    pub env: Option<Vec<(String, String)>>,
    pub timeout_seconds: u64,
}

/// What became of a command that was run.
pub enum RunOutcome {
    /// It ended with that status, after writing that to standard output and standard error.
    Finished { stdout: Vec<u8>, stderr: Vec<u8>, status: ExitStatus },
    /// It could not be started or waited for.
    Failed(String),
    /// It took too long and was killed.
    TimedOut,
}

/// The part of the report that holds standard error.
pub open spec fn stderr_section(stdout: Seq<char>, stderr: Seq<char>) -> Seq<char> {
    if stderr.len() == 0 {
        Seq::empty()
    } else {
        (if stdout.len() > 0 && stdout.last() != '\n' {
            "\n"@
        } else {
            Seq::empty()
        }) + "[stderr]\n"@ + stderr
    }
}

/// What the client is told of a command that has ended: its standard output, its standard error
/// under a heading of its own, and its exit code.
pub open spec fn run_report(stdout: Seq<char>, stderr: Seq<char>, code: int) -> Seq<char> {
    stdout + stderr_section(stdout, stderr) + "\n[exit code: "@ + decimal_int(code) + "]\n"@
}

/// Words the report on a command, from texts that hold no escape sequences.
pub fn report_run(stdout: &str, stderr: &str, exit_code: i32) -> (r: String)
    ensures
        r@ == run_report(stdout@, stderr@, exit_code as int),
{
    let mut output = owned(stdout);
    if !stderr.is_empty() {
        let v = chars_of(stdout);
        if v.len() > 0 && v[v.len() - 1] != '\n' {
            output.append("\n");
        }
        output.append("[stderr]\n");
        output.append(stderr);
    }
    output.append("\n[exit code: ");
    push_decimal_int(&mut output, exit_code);
    output.append("]\n");
    output
}

/// Words the report on a command, from what it wrote.
pub fn format_run_output(stdout: &str, stderr: &str, exit_code: i32) -> (r: String)
    ensures
        r@ == run_report(stripped(stdout@), stripped(stderr@), exit_code as int),
        keeps_plain(stdout@),
        keeps_plain(stderr@),
{
    let out = strip_ansi(stdout);
    let error = strip_ansi(stderr);
    report_run(out.as_str(), error.as_str(), exit_code)
}

impl RunPlan {
    /// How the ending of the process starts: with its time limit.
    pub fn ending(&self) -> (r: EndStage)
        ensures
            r == EndStage::Limited(self.timeout_seconds),
    {
        first_stage(Some(self.timeout_seconds))
    }
}

/// The time limit of a run.
pub open spec fn run_limit(args: RunCommandArgs) -> u64 {
    match args.timeout_seconds {
        Some(n) => n,
        None => DEFAULT_RUN_TIMEOUT_SECONDS,
    }
}

/// Plans to run a command to its end.
pub fn run_command(args: RunCommandArgs) -> (plan: RunPlan)
    ensures
        plan.command == args.command,
        texts(plan.args@) == match args.args {
            Some(list) => texts(list@),
            None => Seq::empty(),
        },
        plan.working_dir == args.working_dir,
        plan.env == args.env,
        plan.timeout_seconds == run_limit(args),
{
    let list: Vec<String> = match args.args {
        Some(list) => list,
        None => Vec::new(),
    };
    let timeout_seconds: u64 = match args.timeout_seconds {
        Some(n) => n,
        None => DEFAULT_RUN_TIMEOUT_SECONDS,
    };
    RunPlan {
        command: args.command,
        args: list,
        working_dir: args.working_dir,
        env: args.env,
        timeout_seconds,
    }
}

/// Answers a request to run a command. `timeout_seconds` is how long it had.
pub fn command_ran(outcome: RunOutcome, timeout_seconds: u64) -> (r: Result<String, ErrorData>)
    requires
        outcome matches RunOutcome::Finished { status, .. } ==> status.fits(),
    ensures
        match outcome {
            RunOutcome::Finished { stdout, stderr, status } => r is Ok && r->Ok_0@ == run_report(
                stripped(lossy_decoded(stdout@)),
                stripped(lossy_decoded(stderr@)),
                code_or_unknown(status.exit_code()),
            ),
            RunOutcome::Failed(reason) => r is Err && r->Err_0.is_internal(reason@),
            RunOutcome::TimedOut => r is Ok && r->Ok_0@ == "(command timed out after "@ + decimal(
                timeout_seconds as nat,
            ) + "s, process killed)\n"@,
        },
        outcome matches RunOutcome::Finished { stdout, stderr, .. } ==> {
            &&& keeps_valid(stdout@) && keeps_plain(lossy_decoded(stdout@))
            &&& keeps_valid(stderr@) && keeps_plain(lossy_decoded(stderr@))
        },
{
    match outcome {
        RunOutcome::Finished { stdout, stderr, status } => {
            let out = decode_lossy(stdout.as_slice());
            let error = decode_lossy(stderr.as_slice());
            let code: i32 = match exit_code_from_status(status) {
                Some(c) => c,
                None => -1,
            };
            Ok(format_run_output(out.as_str(), error.as_str(), code))
        },
        RunOutcome::Failed(reason) => Err(err(reason.as_str())),
        RunOutcome::TimedOut => {
            let mut r = owned("(command timed out after ");
            push_decimal(&mut r, timeout_seconds);
            r.append("s, process killed)\n");
            Ok(r)
        },
    }
}

/// What is done to a command that is still running when its time is over, which is five minutes
/// where the request does not say: it is asked to end; five seconds later it is killed where it
/// has not ended by then.
pub proof fn law_run_is_ended_in_time(args: RunCommandArgs, obeys: bool)
    ensures
        actions_from(EndStage::Limited(run_limit(args)), obeys) == seq![
            EndAction::Wait { seconds: run_limit(args) },
            EndAction::Signal(Signal::Term),
            EndAction::Wait { seconds: 5 },
        ] + if obeys {
            seq![EndAction::Collect]
        } else {
            seq![EndAction::Signal(Signal::Kill), EndAction::Collect]
        },
        args.timeout_seconds is None ==> run_limit(args) == 300,
{
    law_process_is_asked_before_it_is_killed(run_limit(args), obeys);
}

/// The report of a run starts with all that the command wrote to its standard output. Where it
/// wrote nothing to its standard error, only the line with its exit code follows.
pub proof fn law_report_starts_with_the_output(stdout: Seq<char>, stderr: Seq<char>, code: int)
    ensures
        run_report(stdout, stderr, code).len() >= stdout.len(),
        run_report(stdout, stderr, code).take(stdout.len() as int) == stdout,
        run_report(stdout, Seq::empty(), code) == stdout + "\n[exit code: "@ + decimal_int(code)
            + "]\n"@,
{
    assert(run_report(stdout, stderr, code).take(stdout.len() as int) =~= stdout);
    assert(run_report(stdout, Seq::empty(), code) =~= stdout + "\n[exit code: "@ + decimal_int(code)
        + "]\n"@);
}

/// What the command wrote to its standard error stands between its output and its exit code,
/// under a heading that starts on a line of its own.
pub proof fn law_report_keeps_the_errors(stdout: Seq<char>, stderr: Seq<char>, code: int)
    requires
        stderr.len() > 0,
    ensures
        stdout.len() == 0 || stdout.last() == '\n' ==> run_report(stdout, stderr, code)
            == stdout + "[stderr]\n"@ + stderr + "\n[exit code: "@ + decimal_int(code) + "]\n"@,
        stdout.len() > 0 && stdout.last() != '\n' ==> run_report(stdout, stderr, code)
            == stdout + "\n[stderr]\n"@ + stderr + "\n[exit code: "@ + decimal_int(code) + "]\n"@,
{
    reveal_strlit("\n");
    reveal_strlit("[stderr]\n");
    reveal_strlit("\n[stderr]\n");
    assert("\n[stderr]\n"@ =~= seq!['\n'] + "[stderr]\n"@);
    if stdout.len() == 0 || stdout.last() == '\n' {
        assert(run_report(stdout, stderr, code) =~= stdout + "[stderr]\n"@ + stderr
            + "\n[exit code: "@ + decimal_int(code) + "]\n"@);
    } else {
        assert(run_report(stdout, stderr, code) =~= stdout + "\n[stderr]\n"@ + stderr
            + "\n[exit code: "@ + decimal_int(code) + "]\n"@);
    }
}

/// A run gets the time that it asks for, and five minutes where it asks for none.
pub proof fn law_run_gets_its_time(args: RunCommandArgs, seconds: u64)
    ensures
        args.timeout_seconds == Some(seconds) ==> run_limit(args) == seconds,
        args.timeout_seconds is None ==> run_limit(args) == 300,
{
}

/// Runs that differ in their exit code alone are reported differently.
pub proof fn law_reports_tell_exit_codes_apart(stdout: Seq<char>, stderr: Seq<char>, a: int, b: int)
    ensures
        run_report(stdout, stderr, a) == run_report(stdout, stderr, b) ==> a == b,
{
    let head = stdout + stderr_section(stdout, stderr) + "\n[exit code: "@;
    let ra = run_report(stdout, stderr, a);
    let rb = run_report(stdout, stderr, b);
    reveal_strlit("]\n");
    if ra == rb {
        assert(ra.subrange(head.len() as int, ra.len() - 2) =~= decimal_int(a));
        assert(rb.subrange(head.len() as int, rb.len() - 2) =~= decimal_int(b));
        crate::text::law_signed_numbers_are_told_apart(a, b);
    }
}

} // verus!

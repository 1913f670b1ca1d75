//! The server's state, and what each request does to it.

use vstd::prelude::*;

use crate::ending::{
    actions_from, first_stage, initial_stage, law_process_is_asked_before_it_is_killed,
    law_process_without_limit_is_left_alone, EndAction, EndStage,
};
use crate::log::{log_message, passes, LogTarget, LoggingMessage};
use crate::protocol::{LoggingLevel, StartCommandArgs};
use crate::session::{opt_view, ProcessHandle, Session, Sessions};
use crate::signal::Signal;
use crate::text::{
    decimal, decimal_string, join_strings, join_with, law_decimal_injective, owned, push_decimal,
    texts,
};

verus! {

/// The server's state. `P` stands for a process on pipes, `T` for one inside a pseudo-terminal.
pub struct Runner<P, T> {
    pub sessions: Sessions<P, T>,
    /// The number of the next session.
    pub next_id: usize,
    /// From which level on the client gets log messages.
    pub log_level: LoggingLevel,
    /// The port of the monitoring interface.
    pub http_port: u16,
}

/// Everything that is needed to start a command and to keep its session.
pub struct StartPlan {
    pub session_id: String,
    pub command: String,
    pub args: Vec<String>,
    pub working_dir: Option<String>,
    pub env: Option<Vec<(String, String)>>,
    pub label: Option<String>,
    pub use_pty: bool,
    pub stream_log: bool,
    /// The command line, for display.
    pub command_line: String,
    /// Where standard output is logged.
    pub stdout_path: String,
    /// Where standard error is logged, where it is kept apart.
    pub stderr_path: Option<String>,
    /// The resource that changes when standard output comes.
    pub stdout_uri: String,
    /// The resource that changes when standard error comes.
    pub stderr_uri: String,
    /// Where the lines of standard output go, where they are streamed to the client's log.
    pub stdout_log: Option<LogTarget>,
    /// Where the lines of standard error go, where they are streamed to the client's log.
    pub stderr_log: Option<LogTarget>,
    /// After how many seconds the process is ended.
    pub timeout_seconds: Option<u64>,
}

/// What an optional flag says: no, unless it is set.
pub open spec fn flag(f: Option<bool>) -> bool {
    f == Some(true)
}

fn is_set(f: Option<bool>) -> (r: bool)
    ensures
        r == flag(f),
{
    match f {
        Some(b) => b,
        None => false,
    }
}

/// The log file of a stream.
pub open spec fn log_path(id: Seq<char>, suffix: Seq<char>) -> Seq<char> {
    "/tmp/mcp_cmd_"@ + id + suffix
}

/// The address of a stream as a resource.
pub open spec fn resource_uri(id: Seq<char>, suffix: Seq<char>) -> Seq<char> {
    "session://"@ + id + suffix
}

/// The name of a stream as a logger.
pub open spec fn logger_name(id: Seq<char>, suffix: Seq<char>) -> Seq<char> {
    "session/"@ + id + suffix
}

fn concat3(a: &str, b: &str, c: &str) -> (r: String)
    ensures
        r@ == a@ + b@ + c@,
{
    let mut r = owned(a);
    r.append(b);
    r.append(c);
    r
}

/// A command with its arguments, for display.
pub open spec fn display_line(command: Seq<char>, args: Seq<Seq<char>>) -> Seq<char> {
    if args.len() == 0 {
        command
    } else {
        command + " "@ + join_with(args, " "@)
    }
}

fn command_line(command: &str, args: &Vec<String>) -> (r: String)
    ensures
        r@ == display_line(command@, texts(args@)),
{
    if args.len() == 0 {
        owned(command)
    } else {
        let joined = join_strings(args, " ");
        concat3(command, " ", joined.as_str())
    }
}

/// Whether `log` is the target of a streamed stream.
pub open spec fn is_log_target(
    log: Option<LogTarget>,
    streamed: bool,
    logger: Seq<char>,
    level: LoggingLevel,
) -> bool {
    match log {
        Some(target) => streamed && target.logger@ == logger && target.level == level,
        None => !streamed,
    }
}

fn log_target(streamed: bool, logger: String, level: LoggingLevel) -> (r: Option<LogTarget>)
    ensures
        is_log_target(r, streamed, logger@, level),
{
    if streamed {
        Some(LogTarget { logger, level })
    } else {
        None
    }
}

impl StartPlan {
    /// Whether this is the plan for that request under that id.
    pub open spec fn is_for(self, args: StartCommandArgs, id: Seq<char>) -> bool {
        &&& self.session_id@ == id
        &&& self.command == args.command
        &&& texts(self.args@) == args_of(args)
        &&& self.working_dir == args.working_dir
        &&& self.env == args.env
        &&& self.label == args.label
        &&& self.use_pty == flag(args.use_pty)
        &&& self.stream_log == flag(args.stream_log)
        &&& self.command_line@ == display_line(args.command@, args_of(args))
        &&& self.stdout_path@ == log_path(id, "_stdout.log"@)
        &&& opt_view(self.stderr_path) == if flag(args.split_stderr) && !flag(args.use_pty) {
            Some(log_path(id, "_stderr.log"@))
        } else {
            None
        }
        &&& self.stdout_uri@ == resource_uri(id, "/stdout"@)
        &&& self.stderr_uri@ == resource_uri(id, "/stderr"@)
        &&& is_log_target(
            self.stdout_log,
            flag(args.stream_log),
            logger_name(id, "/stdout"@),
            LoggingLevel::Info,
        )
        &&& is_log_target(
            self.stderr_log,
            flag(args.stream_log),
            logger_name(id, "/stderr"@),
            LoggingLevel::Warning,
        )
        &&& self.timeout_seconds == args.timeout_seconds
    }

    /// The session that the plan starts.
    pub open spec fn session<P, T>(self, process: ProcessHandle<P, T>) -> Session<P, T> {
        Session {
            process: Some(process),
            is_pty: self.use_pty,
            label: self.label,
            command: self.command_line,
            stdout_path: self.stdout_path,
            stderr_path: self.stderr_path,
            stdout_pos: 0,
            stderr_pos: 0,
            exit_code: None,
            stream_log: self.stream_log,
        }
    }

    /// How the ending of the process starts: with its time limit, or not at all.
    pub fn ending(&self) -> (r: EndStage)
        ensures
            r == initial_stage(self.timeout_seconds),
    {
        first_stage(self.timeout_seconds)
    }

    /// Where standard error goes: its own log file, or that of standard output.
    pub fn stderr_sink(&self) -> (r: &str)
        ensures
            r@ == match self.stderr_path {
                Some(path) => path@,
                None => self.stdout_path@,
            },
    {
        match &self.stderr_path {
            Some(path) => path.as_str(),
            None => self.stdout_path.as_str(),
        }
    }
}

/// The arguments of a request.
pub open spec fn args_of(args: StartCommandArgs) -> Seq<Seq<char>> {
    match args.args {
        Some(list) => texts(list@),
        None => Seq::empty(),
    }
}

/// The number after `n`. After the largest one comes zero.
pub open spec fn next_number(n: usize) -> usize {
    if n == usize::MAX {
        0
    } else {
        (n + 1) as usize
    }
}

/// Where the monitoring interface is.
pub open spec fn base_url(port: u16) -> Seq<char> {
    "http://localhost:"@ + decimal(port as nat)
}

impl<P, T> Runner<P, T> {
    /// No session id occurs twice.
    pub open spec fn wf(self) -> bool {
        self.sessions.wf()
    }

    /// Whether every session has the id of a number that was given out already. It holds until
    /// the numbers start over.
    pub open spec fn ids_issued(self) -> bool {
        forall|id: Seq<char>| #[trigger]
            self.sessions@.contains_key(id) ==> exists|n: nat|
                n < self.next_id && id == #[trigger] decimal(n)
    }

    /// Whether the two agree but for the sessions.
    pub open spec fn same_but_sessions(self, other: Self) -> bool {
        &&& self.next_id == other.next_id
        &&& self.log_level == other.log_level
        &&& self.http_port == other.http_port
    }

    /// A server without sessions.
    pub fn new() -> (r: Self)
        ensures
            r.wf(),
            r.ids_issued(),
            r.sessions@ == Map::<Seq<char>, Session<P, T>>::empty(),
            r.next_id == 1,
            r.log_level == LoggingLevel::Debug,
            r.http_port == 0,
    {
        Runner {
            sessions: Sessions::new(),
            next_id: 1,
            log_level: LoggingLevel::Debug,
            http_port: 0,
        }
    }

    /// Where the monitoring interface is.
    pub fn http_base_url(&self) -> (r: String)
        ensures
            r@ == base_url(self.http_port),
    {
        let mut r = owned("http://localhost:");
        push_decimal(&mut r, self.http_port as u64);
        r
    }

    /// The client asks for log messages of that level and above.
    pub fn set_level(&mut self, level: LoggingLevel)
        ensures
            *final(self) == (Runner { log_level: level, ..*old(self) }),
    {
        self.log_level = level;
    }

    /// The message to send to the client's log, unless its level is below the one that the
    /// client asked for.
    pub fn notify_log(&self, level: LoggingLevel, logger: &str, data: &str) -> (r: Option<
        LoggingMessage,
    >)
        ensures
            r is Some <==> passes(level, self.log_level),
            r matches Some(m) ==> m.level == level && m.logger@ == logger@ && m.data@ == data@,
    {
        log_message(level, logger, owned(data), self.log_level)
    }

    /// Plans the start of a command: gives it the next session id and derives from that where
    /// its output goes.
    pub fn start_command(&mut self, args: StartCommandArgs) -> (plan: StartPlan)
        ensures
            plan.is_for(args, decimal(old(self).next_id as nat)),
            *final(self) == (Runner { next_id: next_number(old(self).next_id), ..*old(self) }),
    {
        let number: usize = self.next_id;
        self.next_id = number.wrapping_add(1);
        let session_id = decimal_string(number as u64);
        let id = session_id.as_str();
        let split_stderr = is_set(args.split_stderr);
        let use_pty = is_set(args.use_pty);
        let stream_log = is_set(args.stream_log);
        let cmd_args: Vec<String> = match args.args {
            Some(list) => list,
            None => Vec::new(),
        };
        assert(texts(cmd_args@) =~= args_of(args));
        let display = command_line(args.command.as_str(), &cmd_args);
        let stdout_path = concat3("/tmp/mcp_cmd_", id, "_stdout.log");
        let stderr_path: Option<String> = if split_stderr && !use_pty {
            Some(concat3("/tmp/mcp_cmd_", id, "_stderr.log"))
        } else {
            None
        };
        let stdout_uri = concat3("session://", id, "/stdout");
        let stderr_uri = concat3("session://", id, "/stderr");
        let stdout_log = log_target(
            stream_log,
            concat3("session/", id, "/stdout"),
            LoggingLevel::Info,
        );
        let stderr_log = log_target(
            stream_log,
            concat3("session/", id, "/stderr"),
            LoggingLevel::Warning,
        );
        StartPlan {
            session_id,
            command: args.command,
            args: cmd_args,
            working_dir: args.working_dir,
            env: args.env,
            label: args.label,
            use_pty,
            stream_log,
            command_line: display,
            stdout_path,
            stderr_path,
            stdout_uri,
            stderr_uri,
            stdout_log,
            stderr_log,
            timeout_seconds: args.timeout_seconds,
        }
    }

    /// The command of a plan runs now: keeps its session and returns what the client is told.
    pub fn command_started(&mut self, plan: StartPlan, process: ProcessHandle<P, T>) -> (r: String)
        requires
            old(self).wf(),
        ensures
            final(self).wf(),
            final(self).same_but_sessions(*old(self)),
            final(self).sessions@ == old(self).sessions@.insert(
                plan.session_id@,
                plan.session(process),
            ),
            r@ == "Started command with session_id: "@ + plan.session_id@ + "\nFollow: "@
                + base_url(old(self).http_port) + "/session/"@ + plan.session_id@,
    {
        let base = self.http_base_url();
        let mut message = concat3(
            "Started command with session_id: ",
            plan.session_id.as_str(),
            "\nFollow: ",
        );
        message.append(base.as_str());
        message.append("/session/");
        message.append(plan.session_id.as_str());
        self.sessions.insert(
            plan.session_id,
            Session {
                process: Some(process),
                is_pty: plan.use_pty,
                label: plan.label,
                command: plan.command_line,
                stdout_path: plan.stdout_path,
                stderr_path: plan.stderr_path,
                stdout_pos: 0,
                stderr_pos: 0,
                exit_code: None,
                stream_log: plan.stream_log,
            },
        );
        message
    }
}

/// What is done to the process of a started command for its time limit: nothing where the request
/// sets none. Else, after that time, it is asked to end; five seconds later it is killed where it
/// has not ended by then.
pub proof fn law_started_command_is_ended_in_time(
    plan: StartPlan,
    args: StartCommandArgs,
    id: Seq<char>,
    obeys: bool,
)
    requires
        plan.is_for(args, id),
    ensures
        actions_from(initial_stage(plan.timeout_seconds), obeys) == match args.timeout_seconds {
            None => Seq::<EndAction>::empty(),
            Some(seconds) => seq![
                EndAction::Wait { seconds },
                EndAction::Signal(Signal::Term),
                EndAction::Wait { seconds: 5 },
            ] + if obeys {
                seq![EndAction::Collect]
            } else {
                seq![EndAction::Signal(Signal::Kill), EndAction::Collect]
            },
        },
{
    match args.timeout_seconds {
        Some(seconds) => law_process_is_asked_before_it_is_killed(seconds, obeys),
        None => law_process_without_limit_is_left_alone(obeys),
    }
}

/// A new session gets an id that no session has.
pub proof fn law_new_session_id_is_unused<P, T>(r: Runner<P, T>)
    requires
        r.ids_issued(),
    ensures
        !r.sessions@.contains_key(decimal(r.next_id as nat)),
{
    if r.sessions@.contains_key(decimal(r.next_id as nat)) {
        let n = choose|n: nat| n < r.next_id && decimal(r.next_id as nat) == #[trigger] decimal(n);
        law_decimal_injective(n, r.next_id as nat);
    }
}

/// An id that was given out stays unused until its own command has started: giving out other
/// numbers, adding the sessions that those were given to, and removing or changing sessions leave
/// it to its command.
pub proof fn law_issued_id_stays_unused<P, T>(
    before: Runner<P, T>,
    after: Runner<P, T>,
    number: nat,
    other: nat,
    session: Session<P, T>,
)
    requires
        !before.sessions@.contains_key(decimal(number)),
        other != number,
        ({
            ||| after.sessions == before.sessions
            ||| after.sessions@ == before.sessions@.insert(decimal(other), session)
            ||| after.sessions@.dom().subset_of(before.sessions@.dom())
        }),
    ensures
        !after.sessions@.contains_key(decimal(number)),
{
    if decimal(other) == decimal(number) {
        law_decimal_injective(other, number);
    }
}

/// Giving out a number, adding the session that it was given to, and removing or changing
/// sessions all keep every session under the id of a number that was given out.
pub proof fn law_session_ids_stay_issued<P, T>(
    before: Runner<P, T>,
    after: Runner<P, T>,
    number: nat,
    session: Session<P, T>,
)
    requires
        before.ids_issued(),
        ({
            ||| before.next_id < usize::MAX && after == (Runner {
                next_id: next_number(before.next_id),
                ..before
            })
            ||| number < before.next_id && after.same_but_sessions(before) && after.sessions@
                == before.sessions@.insert(decimal(number), session)
            ||| after.same_but_sessions(before) && after.sessions@.dom().subset_of(
                before.sessions@.dom(),
            )
        }),
    ensures
        after.ids_issued(),
{
    assert forall|id: Seq<char>| #[trigger] after.sessions@.contains_key(id) implies exists|n: nat|
        n < after.next_id && id == #[trigger] decimal(n) by {
        if before.sessions@.contains_key(id) {
            let n = choose|n: nat| n < before.next_id && id == #[trigger] decimal(n);
            assert(n < after.next_id && id == decimal(n));
        }
    }
}

/// A switch that is not given is off.
pub proof fn law_switch_is_off_unless_set(on: bool)
    ensures
        flag(Some(on)) == on,
        !flag(None),
{
}

/// A command is displayed with its arguments behind it, each after a space.
pub proof fn law_command_is_displayed_with_its_arguments(
    command: Seq<char>,
    args: Seq<Seq<char>>,
    last: Seq<char>,
)
    ensures
        display_line(command, Seq::empty()) == command,
        display_line(command, args.push(last)) == display_line(command, args) + " "@ + last,
{
    if args.len() == 0 {
        assert(args.push(last) =~= seq![last]);
        crate::text::law_joined_lists_join(args, args, last, " "@);
    } else {
        crate::text::law_joined_lists_join(args, seq![last], last, " "@);
        assert(args.push(last) =~= args + seq![last]);
        assert(display_line(command, args.push(last)) =~= display_line(command, args) + " "@
            + last);
    }
}

/// A start runs the command that was asked for, with its arguments, directory and environment,
/// as a terminal where that was asked for.
pub proof fn law_start_runs_what_was_asked_for(
    plan: StartPlan,
    args: StartCommandArgs,
    id: Seq<char>,
    i: int,
)
    requires
        plan.is_for(args, id),
    ensures
        plan.session_id@ == id,
        plan.command@ == args.command@,
        args.args is None ==> plan.args@.len() == 0 && plan.command_line@ == args.command@,
        args.args is Some ==> plan.args@.len() == args.args->0@.len(),
        args.args is Some && 0 <= i < plan.args@.len() ==> plan.args@[i]@ == args.args->0@[i]@,
        plan.command_line@ == display_line(args.command@, texts(plan.args@)),
        plan.working_dir == args.working_dir,
        plan.env == args.env,
        plan.label == args.label,
        plan.use_pty <==> args.use_pty == Some(true),
        plan.timeout_seconds == args.timeout_seconds,
{
    let got = texts(plan.args@);
    assert(got.len() == plan.args@.len());
    if args.args is Some {
        let list = texts(args.args->0@);
        assert(list.len() == args.args->0@.len());
        if 0 <= i < plan.args@.len() {
            assert(got[i] == list[i]);
        }
    }
}

/// A session has its logs, its resources and its loggers under its own id. Standard error has a
/// log of its own exactly where that was asked for and the command has no terminal, and the
/// client's log gets the lines exactly where that was asked for.
pub proof fn law_start_names_the_streams(plan: StartPlan, args: StartCommandArgs, id: Seq<char>)
    requires
        plan.is_for(args, id),
    ensures
        plan.stdout_path@ == "/tmp/mcp_cmd_"@ + id + "_stdout.log"@,
        plan.stderr_path is Some <==> args.split_stderr == Some(true) && args.use_pty != Some(true),
        plan.stderr_path is Some ==> plan.stderr_path->0@ == "/tmp/mcp_cmd_"@ + id
            + "_stderr.log"@,
        plan.stdout_uri@ == "session://"@ + id + "/stdout"@,
        plan.stderr_uri@ == "session://"@ + id + "/stderr"@,
        plan.stream_log <==> args.stream_log == Some(true),
        plan.stdout_log is Some <==> args.stream_log == Some(true),
        plan.stderr_log is Some <==> args.stream_log == Some(true),
        plan.stdout_log is Some ==> {
            &&& plan.stdout_log->0.logger@ == "session/"@ + id + "/stdout"@
            &&& plan.stdout_log->0.level == LoggingLevel::Info
        },
        plan.stderr_log is Some ==> {
            &&& plan.stderr_log->0.logger@ == "session/"@ + id + "/stderr"@
            &&& plan.stderr_log->0.level == LoggingLevel::Warning
        },
{
}

/// A started session holds its process, has read nothing yet and no exit code, and takes all else
/// from its plan.
pub proof fn law_started_session_follows_its_plan<P, T>(
    plan: StartPlan,
    process: ProcessHandle<P, T>,
)
    ensures
        ({
            let session = plan.session(process);
            &&& session.process == Some(process)
            &&& session.exit_code is None
            &&& session.stdout_pos == 0
            &&& session.stderr_pos == 0
            &&& session.is_pty == plan.use_pty
            &&& session.label == plan.label
            &&& session.command == plan.command_line
            &&& session.stdout_path == plan.stdout_path
            &&& session.stderr_path == plan.stderr_path
            &&& session.stream_log == plan.stream_log
        }),
{
}

/// The number of the next session is one more each time, and starts anew only behind the largest
/// one. Different numbers have different followers.
pub proof fn law_numbers_count_up(a: usize, b: usize)
    ensures
        a < usize::MAX ==> next_number(a) == a + 1,
        next_number(usize::MAX) == 0,
        next_number(a) == next_number(b) ==> a == b,
{
}

/// The address of the monitoring interface names its port. Different ports have different
/// addresses.
pub proof fn law_address_names_the_port(a: u16, b: u16)
    ensures
        base_url(a) == "http://localhost:"@ + decimal(a as nat),
        base_url(a) == base_url(b) ==> a == b,
{
    let head = "http://localhost:"@;
    if base_url(a) == base_url(b) {
        assert(base_url(a).skip(head.len() as int) =~= decimal(a as nat));
        assert(base_url(b).skip(head.len() as int) =~= decimal(b as nat));
        law_decimal_injective(a as nat, b as nat);
    }
}

} // verus!

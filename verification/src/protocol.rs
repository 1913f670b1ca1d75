//! What a client sends and what it is answered.

use vstd::prelude::*;

use crate::text::owned;

verus! {

/// How severe a log message is.
#[derive(Clone, Copy, Debug, PartialEq, Eq, Structural)]
pub enum LoggingLevel {
    Debug,
    Info,
    Notice,
    Warning,
    Error,
    Critical,
    Alert,
    Emergency,
}

/// The rank of a level: the more severe, the higher.
pub open spec fn level_rank(level: LoggingLevel) -> u8 {
    match level {
        LoggingLevel::Debug => 0,
        LoggingLevel::Info => 1,
        LoggingLevel::Notice => 2,
        LoggingLevel::Warning => 3,
        LoggingLevel::Error => 4,
        LoggingLevel::Critical => 5,
        LoggingLevel::Alert => 6,
        LoggingLevel::Emergency => 7,
    }
}

/// The rank of a level: the more severe, the higher.
pub fn level_value(level: LoggingLevel) -> (r: u8)
    ensures
        r == level_rank(level),
{
    match level {
        LoggingLevel::Debug => 0,
        LoggingLevel::Info => 1,
        LoggingLevel::Notice => 2,
        LoggingLevel::Warning => 3,
        LoggingLevel::Error => 4,
        LoggingLevel::Critical => 5,
        LoggingLevel::Alert => 6,
        LoggingLevel::Emergency => 7,
    }
}

/// No two levels share a rank, `Debug` is the lowest and `Emergency` the highest.
pub proof fn law_levels_are_ordered(a: LoggingLevel, b: LoggingLevel)
    ensures
        level_rank(a) == level_rank(b) ==> a == b,
        level_rank(LoggingLevel::Debug) <= level_rank(a) <= level_rank(LoggingLevel::Emergency),
{
}

/// What kind of failure an error reports.
#[derive(Clone, Copy, Debug, PartialEq, Eq, Structural)]
pub enum ErrorCode {
    InternalError,
    ResourceNotFound,
}

/// The error that a request is answered with.
#[derive(Debug)]
pub struct ErrorData {
    pub code: ErrorCode,
    pub message: String,
}

impl ErrorData {
    /// Whether this is the internal error with that message.
    pub open spec fn is_internal(self, message: Seq<char>) -> bool {
        self.code == ErrorCode::InternalError && self.message@ == message
    }

    /// Whether this says that a resource was not found, with that message.
    pub open spec fn is_not_found(self, message: Seq<char>) -> bool {
        self.code == ErrorCode::ResourceNotFound && self.message@ == message
    }
}

/// An internal error with the given message.
pub fn err(msg: &str) -> (e: ErrorData)
    ensures
        e.is_internal(msg@),
{
    ErrorData { code: ErrorCode::InternalError, message: owned(msg) }
}

/// The error that says that a resource was not found.
pub fn resource_not_found(msg: &str) -> (e: ErrorData)
    ensures
        e.is_not_found(msg@),
{
    ErrorData { code: ErrorCode::ResourceNotFound, message: owned(msg) }
}

/// The input that a user gave when asked for it.
#[derive(Debug)]
pub struct ElicitedInput {
    pub input: String,
}

/// What to start and how.
#[derive(Debug)]
pub struct StartCommandArgs {
    /// The program to run.
    pub command: String,
    /// Its arguments.
    pub args: Option<Vec<String>>,
    /// A name for the session that a human can read.
    pub label: Option<String>,
    /// The directory to run in; that of the server where there is none.
    pub working_dir: Option<String>,
    /// Environment variables to set on top of the inherited ones.
    pub env: Option<Vec<(String, String)>>,
    /// Whether standard error is kept apart from standard output. Default: no.
    pub split_stderr: Option<bool>,
    /// Whether to run inside a pseudo-terminal. Default: no.
    pub use_pty: Option<bool>,
    /// Whether to send the output to the client's log line by line. Default: no.
    pub stream_log: Option<bool>,
    /// After how many seconds the process is ended. Default: never.
    pub timeout_seconds: Option<u64>,
}

/// Names a session.
#[derive(Debug)]
pub struct SessionIdArgs {
    pub session_id: String,
}

/// What to read, and how long to wait for it.
#[derive(Debug)]
pub struct ReadOutputArgs {
    pub session_id: String,
    /// Whether escape sequences are removed.
    pub strip_ansi: bool,
    /// How long to wait for new output, in milliseconds.
    pub timeout_ms: Option<u64>,
    /// Wait until this text appears in the output.
    pub wait_for: Option<String>,
}

/// What to send to a process, and whether to wait for its answer.
#[derive(Debug)]
pub struct SendInputArgs {
    pub session_id: String,
    /// Text to send. Trailing white space is trimmed and Enter appended, unless `no_enter` is set.
    pub input: Option<String>,
    /// Bytes to send as they are.
    pub bytes: Option<Vec<u8>>,
    /// Send the text exactly as it is, without Enter.
    pub no_enter: Option<bool>,
    /// Ask the user for the input.
    pub elicit: Option<bool>,
    /// What to ask.
    pub elicit_message: Option<String>,
    /// Wait for output, until it stops arriving.
    pub wait: Option<bool>,
    /// Wait until this text appears in the output.
    pub wait_for: Option<String>,
    /// How long output must have stopped, in milliseconds.
    pub await_response_ms: Option<u64>,
}

/// What to run to its end.
#[derive(Debug)]
pub struct RunCommandArgs {
    pub command: String,
    pub args: Option<Vec<String>>,
    pub working_dir: Option<String>,
    pub env: Option<Vec<(String, String)>>,
    /// After how many seconds the process is ended. Default: 300.
    pub timeout_seconds: Option<u64>,
}

/// Which signal to send to which session.
#[derive(Debug)]
pub struct SendSignalArgs {
    pub session_id: String,
    pub signal: String,
}

/// What to look for in the output of a session.
#[derive(Debug)]
pub struct SearchOutputArgs {
    pub session_id: String,
    /// The text to look for; upper and lower case differ.
    pub pattern: String,
    /// Search standard error instead of standard output.
    pub stderr: bool,
    /// How many matching lines to return at most. Default: 20.
    pub max_results: Option<usize>,
}

/// The eight levels rank in the order in which the protocol lists them, from the least severe on.
pub proof fn law_levels_rank_in_order(i: int)
    requires
        0 <= i < 8,
    ensures
        level_rank(
            seq![
                LoggingLevel::Debug,
                LoggingLevel::Info,
                LoggingLevel::Notice,
                LoggingLevel::Warning,
                LoggingLevel::Error,
                LoggingLevel::Critical,
                LoggingLevel::Alert,
                LoggingLevel::Emergency,
            ][i],
        ) == i,
{
    let all = seq![
        LoggingLevel::Debug,
        LoggingLevel::Info,
        LoggingLevel::Notice,
        LoggingLevel::Warning,
        LoggingLevel::Error,
        LoggingLevel::Critical,
        LoggingLevel::Alert,
        LoggingLevel::Emergency,
    ];
    assert(i == 0 || i == 1 || i == 2 || i == 3 || i == 4 || i == 5 || i == 6 || i == 7);
    assert(all[i] == all[i]);
}

/// An error is of the kind that its code says and has one message.
pub proof fn law_error_has_one_kind(error: ErrorData, message: Seq<char>)
    ensures
        error.is_internal(message) <==> error.code == ErrorCode::InternalError && error.message@
            == message,
        error.is_not_found(message) <==> error.code == ErrorCode::ResourceNotFound
            && error.message@ == message,
        !(error.is_internal(message) && error.is_not_found(message)),
{
}

} // verus!

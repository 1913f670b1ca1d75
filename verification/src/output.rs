//! Requests that read the output of sessions.

use vstd::prelude::*;

use crate::ansi::{keeps_plain, keeps_valid, lossy_decoded};
use crate::protocol::{err, ErrorData, ReadOutputArgs};
use crate::pty::normalized;
use crate::reader::{law_reads_are_incremental, read_tail, tail_at};
use crate::runner::Runner;
use crate::session::{opt_view, poll_fits, reap_session, ExitStatus, Session};
use crate::text::owned;
use crate::wait::{
    answer_outcome, cleaned, exit_suffix, has_passed, read_outcome, read_report, AnswerStep,
    InputWait, OutputWait, PROGRESS_INTERVAL_MS,
};

verus! {

/// One of the two output streams of a process.
#[derive(Clone, Copy, Debug, PartialEq, Eq, Structural)]
pub enum OutputStream {
    Stdout,
    Stderr,
}

impl<P, T> Session<P, T> {
    /// The log file of a stream. Standard error has one only where it is kept apart.
    pub open spec fn path_of(self, stream: OutputStream) -> Option<Seq<char>> {
        match stream {
            OutputStream::Stdout => Some(self.stdout_path@),
            OutputStream::Stderr => opt_view(self.stderr_path),
        }
    }

    /// How many bytes of a stream were read.
    pub open spec fn pos_of(self, stream: OutputStream) -> u64 {
        match stream {
            OutputStream::Stdout => self.stdout_pos,
            OutputStream::Stderr => self.stderr_pos,
        }
    }

    /// The session once a stream was read up to that position.
    pub open spec fn read_to(self, stream: OutputStream, pos: u64) -> Self {
        match stream {
            OutputStream::Stdout => Session { stdout_pos: pos, ..self },
            OutputStream::Stderr => Session { stderr_pos: pos, ..self },
        }
    }
}

impl<P, T> Runner<P, T> {
    /// Why the output of a stream cannot be had, if it cannot: there is no such session, it has
    /// no such stream, or its log could not be read. `tail` is what reading the log gave.
    pub open spec fn read_error(
        self,
        id: Seq<char>,
        stream: OutputStream,
        tail: Result<Vec<u8>, String>,
    ) -> Option<Seq<char>> {
        if !self.sessions@.contains_key(id) {
            Some("Session not found"@)
        } else if self.sessions@[id].path_of(stream) is None {
            Some("stderr not split for this session"@)
        } else {
            match tail {
                Ok(_) => None,
                Err(reason) => Some(reason@),
            }
        }
    }

    /// The sessions once the new output of a stream was read and the process polled.
    pub open spec fn sessions_after_read(
        self,
        id: Seq<char>,
        stream: OutputStream,
        tail: Seq<u8>,
        poll: Option<ExitStatus>,
    ) -> Map<Seq<char>, Session<P, T>> {
        let session = self.sessions@[id];
        let pos = (session.pos_of(stream) + tail.len()) as u64;
        self.sessions@.insert(id, session.read_to(stream, pos).polled(poll))
    }

    /// Whether `after` is this state once the new output of a stream was read and the process
    /// polled. A read that fails changes nothing.
    pub open spec fn reads(
        self,
        id: Seq<char>,
        stream: OutputStream,
        tail: Result<Vec<u8>, String>,
        poll: Option<ExitStatus>,
        after: Self,
    ) -> bool {
        &&& after.wf()
        &&& after.same_but_sessions(self)
        &&& after.sessions.ids() == self.sessions.ids()
        &&& after.sessions@ == if self.read_error(id, stream, tail) is None {
            self.sessions_after_read(id, stream, tail->Ok_0@, poll)
        } else {
            self.sessions@
        }
    }

    /// Whether the position of a stream can move past what was read.
    pub open spec fn read_fits(
        self,
        id: Seq<char>,
        stream: OutputStream,
        tail: Result<Vec<u8>, String>,
    ) -> bool {
        self.read_error(id, stream, tail) is None ==> self.sessions@[id].pos_of(stream)
            + tail->Ok_0@.len() <= u64::MAX
    }

    /// Where a stream of a session is logged and up to where it was read.
    pub fn output_source(&self, id: &str, stream: OutputStream) -> (r: Result<
        (String, u64),
        ErrorData,
    >)
        requires
            self.wf(),
        ensures
            if !self.sessions@.contains_key(id@) {
                r is Err && r->Err_0.is_internal("Session not found"@)
            } else {
                let session = self.sessions@[id@];
                match session.path_of(stream) {
                    Some(path) => {
                        &&& r is Ok
                        &&& r->Ok_0.0@ == path
                        &&& r->Ok_0.1 == session.pos_of(stream)
                    },
                    None => r is Err && r->Err_0.is_internal("stderr not split for this session"@),
                }
            },
    {
        match self.sessions.get(id) {
            None => Err(err("Session not found")),
            Some(session) => match stream {
                OutputStream::Stdout => Ok(
                    (owned(session.stdout_path.as_str()), session.stdout_pos),
                ),
                OutputStream::Stderr => match &session.stderr_path {
                    Some(path) => Ok((owned(path.as_str()), session.stderr_pos)),
                    None => Err(err("stderr not split for this session")),
                },
            },
        }
    }

    /// Takes the new output of a stream: `tail` is what its log holds from the session's position
    /// on, or why it could not be read, and `poll` what a poll of the process reported after
    /// that. Returns the text of the tail, and the notice where the process is found to have
    /// ended.
    pub fn take_output(
        &mut self,
        id: &str,
        stream: OutputStream,
        tail: Result<Vec<u8>, String>,
        poll: Option<ExitStatus>,
    ) -> (r: Result<(String, Option<String>), ErrorData>)
        requires
            old(self).wf(),
            poll_fits(poll),
            old(self).read_fits(id@, stream, tail),
        ensures
            old(self).reads(id@, stream, tail, poll, *final(self)),
            match old(self).read_error(id@, stream, tail) {
                Some(message) => r is Err && r->Err_0.is_internal(message),
                None => {
                    &&& r is Ok
                    &&& r->Ok_0.0@ == lossy_decoded(tail->Ok_0@)
                    &&& tail->Ok_0@.len() == 0 ==> r->Ok_0.0@.len() == 0
                    &&& opt_view(r->Ok_0.1) == old(self).sessions@[id@].poll_notice(poll)
                    &&& keeps_valid(tail->Ok_0@)
                },
            },
    {
        let ghost before = self.sessions@;
        match self.sessions.get_mut(id) {
            None => Err(err("Session not found")),
            Some(session) => {
                assert(before.insert(id@, before[id@]) =~= before);
                let split: bool = session.stderr_path.is_some();
                let at: u64 = match stream {
                    OutputStream::Stdout => session.stdout_pos,
                    OutputStream::Stderr => {
                        if !split {
                            return Err(err("stderr not split for this session"));
                        }
                        session.stderr_pos
                    },
                };
                match tail {
                    Err(reason) => Err(err(reason.as_str())),
                    Ok(bytes) => {
                        let (text, pos) = read_tail(bytes.as_slice(), at);
                        match stream {
                            OutputStream::Stdout => {
                                session.stdout_pos = pos;
                            },
                            OutputStream::Stderr => {
                                session.stderr_pos = pos;
                            },
                        }
                        let exited = reap_session(session, poll);
                        Ok((text, exited))
                    },
                }
            },
        }
    }

    fn read_stream(
        &mut self,
        args: &ReadOutputArgs,
        stream: OutputStream,
        tail: Result<Vec<u8>, String>,
        poll: Option<ExitStatus>,
    ) -> (r: Result<String, ErrorData>)
        requires
            old(self).wf(),
            poll_fits(poll),
            old(self).read_fits(args.session_id@, stream, tail),
        ensures
            old(self).reads(args.session_id@, stream, tail, poll, *final(self)),
            match old(self).read_error(args.session_id@, stream, tail) {
                Some(message) => r is Err && r->Err_0.is_internal(message),
                None => {
                    let data = lossy_decoded(tail->Ok_0@);
                    &&& r is Ok
                    &&& r->Ok_0@ == cleaned(data, args.strip_ansi) + exit_suffix(
                        old(self).sessions@[args.session_id@].poll_notice(poll),
                    )
                    &&& keeps_valid(tail->Ok_0@)
                    &&& args.strip_ansi ==> keeps_plain(normalized(data))
                },
            },
    {
        match self.take_output(args.session_id.as_str(), stream, tail, poll) {
            Ok((text, exited)) => Ok(read_report(text.as_str(), args.strip_ansi, exited)),
            Err(e) => Err(e),
        }
    }

    /// A request to read the new standard output of a session without waiting. `tail` is what
    /// its log holds from the session's position on, and `poll` what a poll of the process
    /// reported after that.
    pub fn read_output(
        &mut self,
        args: &ReadOutputArgs,
        tail: Result<Vec<u8>, String>,
        poll: Option<ExitStatus>,
    ) -> (r: Result<String, ErrorData>)
        requires
            old(self).wf(),
            poll_fits(poll),
            old(self).read_fits(args.session_id@, OutputStream::Stdout, tail),
        ensures
            old(self).reads(args.session_id@, OutputStream::Stdout, tail, poll, *final(self)),
            match old(self).read_error(args.session_id@, OutputStream::Stdout, tail) {
                Some(message) => r is Err && r->Err_0.is_internal(message),
                None => {
                    let data = lossy_decoded(tail->Ok_0@);
                    &&& r is Ok
                    &&& r->Ok_0@ == cleaned(data, args.strip_ansi) + exit_suffix(
                        old(self).sessions@[args.session_id@].poll_notice(poll),
                    )
                    &&& keeps_valid(tail->Ok_0@)
                    &&& args.strip_ansi ==> keeps_plain(normalized(data))
                },
            },
    {
        self.read_stream(args, OutputStream::Stdout, tail, poll)
    }

    /// A request to read the new standard error of a session, where it is kept apart.
    pub fn read_stderr(
        &mut self,
        args: &ReadOutputArgs,
        tail: Result<Vec<u8>, String>,
        poll: Option<ExitStatus>,
    ) -> (r: Result<String, ErrorData>)
        requires
            old(self).wf(),
            poll_fits(poll),
            old(self).read_fits(args.session_id@, OutputStream::Stderr, tail),
        ensures
            old(self).reads(args.session_id@, OutputStream::Stderr, tail, poll, *final(self)),
            match old(self).read_error(args.session_id@, OutputStream::Stderr, tail) {
                Some(message) => r is Err && r->Err_0.is_internal(message),
                None => {
                    let data = lossy_decoded(tail->Ok_0@);
                    &&& r is Ok
                    &&& r->Ok_0@ == cleaned(data, args.strip_ansi) + exit_suffix(
                        old(self).sessions@[args.session_id@].poll_notice(poll),
                    )
                    &&& keeps_valid(tail->Ok_0@)
                    &&& args.strip_ansi ==> keeps_plain(normalized(data))
                },
            },
    {
        self.read_stream(args, OutputStream::Stderr, tail, poll)
    }

    /// One look at a session whose standard output is waited for. Returns the answer to the
    /// request, or `None` to go on waiting.
    pub fn await_output(
        &mut self,
        id: &str,
        wait: &mut OutputWait,
        tail: Result<Vec<u8>, String>,
        poll: Option<ExitStatus>,
        now: u64,
    ) -> (r: Result<Option<String>, ErrorData>)
        requires
            old(self).wf(),
            poll_fits(poll),
            old(self).read_fits(id@, OutputStream::Stdout, tail),
            old(wait).in_time(now),
        ensures
            old(self).reads(id@, OutputStream::Stdout, tail, poll, *final(self)),
            match old(self).read_error(id@, OutputStream::Stdout, tail) {
                Some(message) => {
                    &&& r is Err
                    &&& r->Err_0.is_internal(message)
                    &&& *final(wait) == *old(wait)
                },
                None => {
                    let data = lossy_decoded(tail->Ok_0@);
                    let fresh = old(wait).fresh(data);
                    let (collected, idle_since) = old(wait).after(fresh, now);
                    &&& r is Ok
                    &&& opt_view(r->Ok_0) == read_outcome(
                        collected,
                        opt_view(old(wait).wait_for),
                        old(wait).started,
                        old(wait).max_wait_ms,
                        idle_since,
                        old(self).sessions@[id@].poll_notice(poll),
                        now,
                    )
                    &&& final(wait).idle_since == idle_since
                    &&& final(wait).collected@ == collected
                    &&& keeps_valid(tail->Ok_0@)
                    &&& data.len() > 0 && old(wait).strip_ansi ==> keeps_plain(normalized(data))
                },
            },
            final(wait).in_time(now),
            final(wait).started == old(wait).started,
            final(wait).max_wait_ms == old(wait).max_wait_ms,
            final(wait).strip_ansi == old(wait).strip_ansi,
            final(wait).wait_for == old(wait).wait_for,
    {
        match self.take_output(id, OutputStream::Stdout, tail, poll) {
            Ok((text, exited)) => Ok(wait.step(text.as_str(), exited, now)),
            Err(e) => Err(e),
        }
    }

    /// One look at a session whose answer to an input is waited for.
    pub fn await_answer(
        &mut self,
        id: &str,
        wait: &mut InputWait,
        tail: Result<Vec<u8>, String>,
        poll: Option<ExitStatus>,
        now: u64,
    ) -> (r: Result<AnswerStep, ErrorData>)
        requires
            old(self).wf(),
            poll_fits(poll),
            old(self).read_fits(id@, OutputStream::Stdout, tail),
            old(wait).in_time(now),
        ensures
            old(self).reads(id@, OutputStream::Stdout, tail, poll, *final(self)),
            match old(self).read_error(id@, OutputStream::Stdout, tail) {
                Some(message) => {
                    &&& r is Err
                    &&& r->Err_0.is_internal(message)
                    &&& *final(wait) == *old(wait)
                },
                None => {
                    let data = lossy_decoded(tail->Ok_0@);
                    let collected = old(wait).collected@ + data;
                    &&& r is Ok
                    &&& r->Ok_0.answer() == answer_outcome(
                        cleaned(collected, true),
                        collected.len() == 0,
                        data.len() > 0,
                        opt_view(old(wait).wait_for),
                        old(wait).started,
                        old(wait).idle_ms,
                        old(wait).idle_after(data, now),
                        old(self).sessions@[id@].poll_notice(poll),
                        now,
                    )
                    &&& r->Ok_0 matches AnswerStep::Continue { report } ==> report == has_passed(
                        old(wait).last_progress,
                        now,
                        PROGRESS_INTERVAL_MS,
                    )
                    &&& final(wait).collected@ == collected
                    &&& keeps_valid(tail->Ok_0@)
                    &&& keeps_plain(normalized(collected))
                    &&& final(wait).idle_since == old(wait).idle_after(data, now)
                    &&& final(wait).last_progress == match r->Ok_0 {
                        AnswerStep::Continue { report: true } => now,
                        _ => old(wait).last_progress,
                    }
                },
            },
            final(wait).in_time(now),
            final(wait).started == old(wait).started,
            final(wait).idle_ms == old(wait).idle_ms,
            final(wait).wait_for == old(wait).wait_for,
    {
        match self.take_output(id, OutputStream::Stdout, tail, poll) {
            Ok((text, exited)) => Ok(wait.step(text.as_str(), exited, now)),
            Err(e) => Err(e),
        }
    }
}

/// A client gets each byte of a stream once: while the log grows from `log` to `log + more`, two
/// reads one after the other get what one read at the end would have got, and the session is
/// then at the end of the log.
pub proof fn law_client_reads_each_byte_once<P, T>(
    before: Runner<P, T>,
    between: Runner<P, T>,
    after: Runner<P, T>,
    id: Seq<char>,
    stream: OutputStream,
    log: Seq<u8>,
    more: Seq<u8>,
    first: Vec<u8>,
    second: Vec<u8>,
    first_poll: Option<ExitStatus>,
    second_poll: Option<ExitStatus>,
)
    requires
        before.read_error(id, stream, Ok(first)) is None,
        before.sessions@[id].pos_of(stream) <= log.len(),
        log.len() + more.len() <= u64::MAX,
        first@ == tail_at(log, before.sessions@[id].pos_of(stream) as nat),
        before.reads(id, stream, Ok(first), first_poll, between),
        second@ == tail_at(log + more, between.sessions@[id].pos_of(stream) as nat),
        between.reads(id, stream, Ok(second), second_poll, after),
    ensures
        between.read_error(id, stream, Ok(second)) is None,
        first@ + second@ == tail_at(log + more, before.sessions@[id].pos_of(stream) as nat),
        second@ == more,
        after.sessions@[id].pos_of(stream) == (log + more).len(),
{
    law_reads_are_incremental(log, more, before.sessions@[id].pos_of(stream) as nat);
}

/// Reading one stream of a session leaves what was read of the other as it is.
pub proof fn law_streams_are_read_apart<P, T>(
    before: Runner<P, T>,
    after: Runner<P, T>,
    id: Seq<char>,
    stream: OutputStream,
    other: OutputStream,
    tail: Result<Vec<u8>, String>,
    poll: Option<ExitStatus>,
)
    requires
        before.reads(id, stream, tail, poll, after),
        before.sessions@.contains_key(id),
        other != stream,
    ensures
        after.sessions@[id].pos_of(other) == before.sessions@[id].pos_of(other),
{
}

/// A request that reads from a session that was deleted is told that there is none.
pub proof fn law_deleted_session_is_not_found<P, T>(
    before: Runner<P, T>,
    after: Runner<P, T>,
    id: Seq<char>,
    stream: OutputStream,
    tail: Result<Vec<u8>, String>,
)
    requires
        after.sessions@ == before.sessions@.remove(id),
    ensures
        after.read_error(id, stream, tail) == Some("Session not found"@),
{
}

/// A read that succeeds moves the position of its stream by as many bytes as it read and records
/// the poll in its session. One that fails changes nothing. All other sessions, and what else the
/// server holds, stay as they are in either case.
pub proof fn law_read_moves_one_position<P, T>(
    before: Runner<P, T>,
    id: Seq<char>,
    stream: OutputStream,
    tail: Result<Vec<u8>, String>,
    poll: Option<ExitStatus>,
    after: Runner<P, T>,
    other: Seq<char>,
)
    requires
        before.reads(id, stream, tail, poll, after),
        before.read_fits(id, stream, tail),
    ensures
        after.next_id == before.next_id,
        after.log_level == before.log_level,
        after.http_port == before.http_port,
        after.sessions.ids() == before.sessions.ids(),
        before.read_error(id, stream, tail) is Some ==> after.sessions@ == before.sessions@,
        before.read_error(id, stream, tail) is None ==> {
            let old_session = before.sessions@[id];
            let new_session = after.sessions@[id];
            let read = tail->Ok_0@.len();
            let ended = old_session.process is Some && poll is Some;
            &&& other != id && before.sessions@.contains_key(other) ==> after.sessions@[other]
                == before.sessions@[other]
            &&& stream == OutputStream::Stdout ==> new_session.stdout_pos == old_session.stdout_pos
                + read && new_session.stderr_pos == old_session.stderr_pos
            &&& stream == OutputStream::Stderr ==> new_session.stderr_pos == old_session.stderr_pos
                + read && new_session.stdout_pos == old_session.stdout_pos
            &&& ended ==> new_session.process is None && new_session.exit_code
                == poll->0.exit_code()
            &&& !ended ==> new_session.process == old_session.process && new_session.exit_code
                == old_session.exit_code
            &&& new_session.stdout_path == old_session.stdout_path
            &&& new_session.stderr_path == old_session.stderr_path
            &&& new_session.command == old_session.command
            &&& new_session.label == old_session.label
            &&& new_session.is_pty == old_session.is_pty
            &&& new_session.stream_log == old_session.stream_log
        },
{
}

/// A read fails where there is no such session, where standard error has no log of its own, and
/// where the log cannot be read; otherwise it succeeds.
pub proof fn law_read_fails_for_three_reasons<P, T>(
    runner: Runner<P, T>,
    id: Seq<char>,
    stream: OutputStream,
    tail: Result<Vec<u8>, String>,
)
    ensures
        ({
            let error = runner.read_error(id, stream, tail);
            let known = runner.sessions@.contains_key(id);
            let split = stream == OutputStream::Stdout || runner.sessions@[id].stderr_path is Some;
            &&& !known ==> error == Some("Session not found"@)
            &&& known && !split ==> error == Some("stderr not split for this session"@)
            &&& known && split && tail is Err ==> error == Some(tail->Err_0@)
            &&& known && split && tail is Ok ==> error is None
        }),
{
}

/// Each stream of a session has its own log and its own position.
pub proof fn law_streams_have_their_own_logs<P, T>(session: Session<P, T>, pos: u64)
    ensures
        session.path_of(OutputStream::Stdout) == Some(session.stdout_path@),
        session.stderr_path is Some ==> session.path_of(OutputStream::Stderr) == Some(
            session.stderr_path->0@,
        ),
        session.stderr_path is None ==> session.path_of(OutputStream::Stderr) is None,
        session.pos_of(OutputStream::Stdout) == session.stdout_pos,
        session.pos_of(OutputStream::Stderr) == session.stderr_pos,
        session.read_to(OutputStream::Stdout, pos) == (Session { stdout_pos: pos, ..session }),
        session.read_to(OutputStream::Stderr, pos) == (Session { stderr_pos: pos, ..session }),
{
}

} // verus!

//! Requests that stop, delete and list sessions.

use vstd::prelude::*;

use crate::protocol::{err, ErrorData, SessionIdArgs};
use crate::runner::{base_url, Runner};
use crate::session::{
    exit_code_from_status, opt_view, poll_fits, reap_session, remove_session, Cleanup, ExitStatus,
    ProcessHandle, Session,
};
use crate::text::{decimal_int, join_strings, join_with, owned, push_decimal_int, texts};

verus! {

/// What became of a process that was to be killed.
pub enum KillOutcome {
    /// There was none.
    NotRunning,
    /// It ended with that status.
    Ended(ExitStatus),
    /// Killing it or waiting for it failed.
    Failed(String),
}

impl KillOutcome {
    /// Whether an exit code can be made of the status.
    pub open spec fn fits(self) -> bool {
        self matches KillOutcome::Ended(status) ==> status.fits()
    }
}

/// An exit code as it is shown for debugging.
pub open spec fn debug_code(code: Option<i32>) -> Seq<char> {
    match code {
        Some(c) => "Some("@ + decimal_int(c as int) + ")"@,
        None => "None"@,
    }
}

/// The status of a session.
pub open spec fn status_report<P, T>(session: Session<P, T>) -> Seq<char> {
    "Running: "@ + if session.process is Some {
        "true"@
    } else {
        "false"@
    } + ", Exit code: "@ + debug_code(session.exit_code)
}

/// Whether a session runs, in a word.
pub open spec fn status_word<P, T>(session: Session<P, T>) -> Seq<char> {
    match (session.process, session.exit_code) {
        (Some(_), _) => "running"@,
        (None, Some(code)) => "exited ("@ + decimal_int(code as int) + ")"@,
        (None, None) => "unknown"@,
    }
}

/// A label in the list of sessions.
pub open spec fn label_tag(label: Option<String>) -> Seq<char> {
    match label {
        Some(l) => " ["@ + l@ + "]"@,
        None => Seq::empty(),
    }
}

/// A session in the list of sessions.
pub open spec fn session_line<P, T>(id: Seq<char>, session: Session<P, T>, base: Seq<char>) -> Seq<
    char,
> {
    "  "@ + id + label_tag(session.label) + ": "@ + session.command@ + " ("@ + status_word(session)
        + ") — "@ + base + "/session/"@ + id
}

/// Whether a session runs, in a word.
pub fn status_text<P, T>(session: &Session<P, T>) -> (r: String)
    ensures
        r@ == status_word(*session),
{
    if session.process.is_some() {
        owned("running")
    } else {
        match session.exit_code {
            Some(code) => {
                let mut r = owned("exited (");
                push_decimal_int(&mut r, code);
                r.append(")");
                r
            },
            None => owned("unknown"),
        }
    }
}

fn line_of<P, T>(id: &str, session: &Session<P, T>, base: &str) -> (r: String)
    ensures
        r@ == session_line(id@, *session, base@),
{
    let mut r = owned("  ");
    r.append(id);
    match &session.label {
        Some(l) => {
            r.append(" [");
            r.append(l.as_str());
            r.append("]");
        },
        None => {},
    }
    r.append(": ");
    r.append(session.command.as_str());
    r.append(" (");
    let status = status_text(session);
    r.append(status.as_str());
    r.append(") — ");
    r.append(base);
    r.append("/session/");
    r.append(id);
    r
}

impl<P, T> Runner<P, T> {
    /// The list of sessions.
    pub open spec fn listing(self) -> Seq<char> {
        if self.sessions.ids().len() == 0 {
            "No sessions"@
        } else {
            "Sessions:\n"@ + join_with(
                Seq::new(
                    self.sessions.ids().len(),
                    |i: int|
                        session_line(
                            self.sessions.ids()[i],
                            self.sessions@[self.sessions.ids()[i]],
                            base_url(self.http_port),
                        ),
                ),
                "\n"@,
            )
        }
    }

    /// Records in a session what a poll of its process reported. Returns the notice for the
    /// reader when the process is found to have ended.
    pub fn reap(&mut self, id: &str, poll: Option<ExitStatus>) -> (r: Option<String>)
        requires
            old(self).wf(),
            poll_fits(poll),
        ensures
            final(self).wf(),
            final(self).same_but_sessions(*old(self)),
            final(self).sessions.ids() == old(self).sessions.ids(),
            if old(self).sessions@.contains_key(id@) {
                let session = old(self).sessions@[id@];
                &&& final(self).sessions@ == old(self).sessions@.insert(id@, session.polled(poll))
                &&& opt_view(r) == session.poll_notice(poll)
            } else {
                final(self).sessions@ == old(self).sessions@ && r is None
            },
    {
        match self.sessions.get_mut(id) {
            Some(session) => reap_session(session, poll),
            None => None,
        }
    }

    /// The process of a session has ended with that status, after it was taken out of it.
    pub fn record_exit(&mut self, id: &str, status: ExitStatus)
        requires
            old(self).wf(),
            status.fits(),
        ensures
            final(self).wf(),
            final(self).same_but_sessions(*old(self)),
            final(self).sessions.ids() == old(self).sessions.ids(),
            final(self).sessions@ == if old(self).sessions@.contains_key(id@) {
                old(self).sessions@.insert(
                    id@,
                    Session { exit_code: status.exit_code(), ..old(self).sessions@[id@] },
                )
            } else {
                old(self).sessions@
            },
    {
        match self.sessions.get_mut(id) {
            Some(session) => {
                session.exit_code = exit_code_from_status(status);
            },
            None => {},
        }
    }

    /// Whether the process of a session runs, where it was polled just now. `None` where there
    /// is no such session.
    pub fn is_running(&self, id: &str, poll: Option<ExitStatus>) -> (r: Option<bool>)
        requires
            self.wf(),
        ensures
            r == if self.sessions@.contains_key(id@) {
                Some(self.sessions@[id@].process is Some && poll is None)
            } else {
                None
            },
    {
        match self.sessions.get(id) {
            Some(session) => Some(session.process.is_some() && poll.is_none()),
            None => None,
        }
    }

    /// Takes the process out of a session, to end it. The session counts as not running from
    /// then on. `None` where there is no such session or its process has ended already.
    pub fn expire(&mut self, id: &str) -> (r: Option<ProcessHandle<P, T>>)
        requires
            old(self).wf(),
        ensures
            final(self).wf(),
            final(self).same_but_sessions(*old(self)),
            final(self).sessions.ids() == old(self).sessions.ids(),
            if old(self).sessions@.contains_key(id@) {
                let session = old(self).sessions@[id@];
                &&& r == session.process
                &&& final(self).sessions@ == old(self).sessions@.insert(
                    id@,
                    Session { process: None, ..session },
                )
            } else {
                r is None && final(self).sessions@ == old(self).sessions@
            },
    {
        match self.sessions.get_mut(id) {
            Some(session) => session.process.take(),
            None => None,
        }
    }

    /// A request to stop a command: takes its process out of its session, to kill it.
    pub fn stop_command(&mut self, args: &SessionIdArgs) -> (r: Result<
        Option<ProcessHandle<P, T>>,
        ErrorData,
    >)
        requires
            old(self).wf(),
        ensures
            final(self).wf(),
            final(self).same_but_sessions(*old(self)),
            final(self).sessions.ids() == old(self).sessions.ids(),
            if old(self).sessions@.contains_key(args.session_id@) {
                let session = old(self).sessions@[args.session_id@];
                &&& r == Ok::<_, ErrorData>(session.process)
                &&& final(self).sessions@ == old(self).sessions@.insert(
                    args.session_id@,
                    Session { process: None, ..session },
                )
            } else {
                &&& r is Err
                &&& r->Err_0.is_internal("Session not found"@)
                &&& final(self).sessions@ == old(self).sessions@
            },
    {
        match self.sessions.get_mut(args.session_id.as_str()) {
            Some(session) => Ok(session.process.take()),
            None => Err(err("Session not found")),
        }
    }

    /// The process that a request to stop took out has ended, or could not be killed.
    pub fn command_stopped(&mut self, args: &SessionIdArgs, outcome: KillOutcome) -> (r: Result<
        String,
        ErrorData,
    >)
        requires
            old(self).wf(),
            outcome.fits(),
        ensures
            final(self).wf(),
            final(self).same_but_sessions(*old(self)),
            final(self).sessions.ids() == old(self).sessions.ids(),
            match outcome {
                KillOutcome::Failed(message) => r is Err && r->Err_0.is_internal(message@),
                _ => r is Ok && r->Ok_0@ == "Command stopped"@,
            },
            final(self).sessions@ == match outcome {
                KillOutcome::Ended(status) if old(self).sessions@.contains_key(args.session_id@) => {
                    old(self).sessions@.insert(
                        args.session_id@,
                        Session {
                            exit_code: status.exit_code(),
                            ..old(self).sessions@[args.session_id@]
                        },
                    )
                },
                _ => old(self).sessions@,
            },
    {
        match outcome {
            KillOutcome::Failed(message) => Err(err(message.as_str())),
            KillOutcome::Ended(status) => {
                self.record_exit(args.session_id.as_str(), status);
                Ok(owned("Command stopped"))
            },
            KillOutcome::NotRunning => Ok(owned("Command stopped")),
        }
    }

    /// A request to delete a session: takes it out of the table. What it returns is to be
    /// cleaned up.
    pub fn delete_session(&mut self, args: &SessionIdArgs) -> (r: Result<
        (Cleanup<P, T>, String),
        ErrorData,
    >)
        requires
            old(self).wf(),
        ensures
            final(self).wf(),
            final(self).same_but_sessions(*old(self)),
            final(self).sessions@ == old(self).sessions@.remove(args.session_id@),
            match r {
                Ok((cleanup, message)) => {
                    &&& old(self).sessions@.contains_key(args.session_id@)
                    &&& cleanup.ends(old(self).sessions@[args.session_id@])
                    &&& message@ == "Session deleted"@
                },
                Err(e) => {
                    &&& !old(self).sessions@.contains_key(args.session_id@)
                    &&& e.is_internal("Session not found"@)
                },
            },
    {
        match remove_session(args.session_id.as_str(), &mut self.sessions) {
            Some(cleanup) => Ok((cleanup, owned("Session deleted"))),
            None => Err(err("Session not found")),
        }
    }

    /// A request for the status of a session, whose process was polled just now.
    pub fn get_status(&mut self, args: &SessionIdArgs, poll: Option<ExitStatus>) -> (r: Result<
        String,
        ErrorData,
    >)
        requires
            old(self).wf(),
            poll_fits(poll),
        ensures
            final(self).wf(),
            final(self).same_but_sessions(*old(self)),
            final(self).sessions.ids() == old(self).sessions.ids(),
            if old(self).sessions@.contains_key(args.session_id@) {
                let session = old(self).sessions@[args.session_id@].polled(poll);
                &&& final(self).sessions@ == old(self).sessions@.insert(args.session_id@, session)
                &&& r is Ok
                &&& r->Ok_0@ == status_report(session)
            } else {
                &&& final(self).sessions@ == old(self).sessions@
                &&& r is Err
                &&& r->Err_0.is_internal("Session not found"@)
            },
    {
        match self.sessions.get_mut(args.session_id.as_str()) {
            Some(session) => {
                let _ = reap_session(session, poll);
                let mut text = owned("Running: ");
                if session.process.is_some() {
                    text.append("true");
                } else {
                    text.append("false");
                }
                text.append(", Exit code: ");
                match session.exit_code {
                    Some(code) => {
                        text.append("Some(");
                        push_decimal_int(&mut text, code);
                        text.append(")");
                    },
                    None => {
                        text.append("None");
                    },
                }
                Ok(text)
            },
            None => Err(err("Session not found")),
        }
    }

    /// Whether `polls` holds what a poll of each session can report, in the order of the ids.
    pub open spec fn polls_fit(self, polls: Seq<Option<ExitStatus>>) -> bool {
        &&& polls.len() == self.sessions.ids().len()
        &&& forall|i: int| 0 <= i < polls.len() ==> poll_fits(#[trigger] polls[i])
    }

    /// Whether `after` is this state once every session has recorded what its poll reported.
    pub open spec fn reaps_all(self, polls: Seq<Option<ExitStatus>>, after: Self) -> bool {
        &&& after.wf()
        &&& after.same_but_sessions(self)
        &&& after.sessions.ids() == self.sessions.ids()
        &&& forall|i: int|
            0 <= i < self.sessions.ids().len() ==> after.sessions@[#[trigger] self.sessions.ids()[i]]
                == self.sessions@[self.sessions.ids()[i]].polled(polls[i])
    }

    /// Records in every session what a poll of its process reported. The polls come in the order
    /// of the ids.
    pub fn reap_all(&mut self, polls: &Vec<Option<ExitStatus>>)
        requires
            old(self).wf(),
            old(self).polls_fit(polls@),
        ensures
            old(self).reaps_all(polls@, *final(self)),
    {
        let ghost before = *self;
        let ghost ids = self.sessions.ids();
        let mut i: usize = 0;
        while i < self.sessions.len()
            invariant
                self.wf(),
                self.same_but_sessions(before),
                before.polls_fit(polls@),
                ids == before.sessions.ids(),
                ids.no_duplicates(),
                self.sessions.ids() == ids,
                i <= ids.len(),
                forall|j: int|
                    0 <= j < i ==> self.sessions@[#[trigger] ids[j]]
                        == before.sessions@[ids[j]].polled(polls@[j]),
                forall|j: int|
                    i <= j < ids.len() ==> self.sessions@[#[trigger] ids[j]]
                        == before.sessions@[ids[j]],
            decreases ids.len() - i,
        {
            let (id, _session) = self.sessions.at(i);
            let id = owned(id);
            assert(self.sessions.ids().contains(ids[i as int]));
            let _ = self.reap(id.as_str(), polls[i]);
            i += 1;
        }
    }

    /// The ids of the sessions, in the order in which they are listed.
    pub fn session_ids(&self) -> (r: Vec<String>)
        requires
            self.wf(),
        ensures
            texts(r@) == self.sessions.ids(),
    {
        let mut r: Vec<String> = Vec::new();
        let mut i: usize = 0;
        while i < self.sessions.len()
            invariant
                self.wf(),
                i <= self.sessions.ids().len(),
                texts(r@) == self.sessions.ids().take(i as int),
            decreases self.sessions.ids().len() - i,
        {
            let ghost done = texts(r@);
            let (id, _session) = self.sessions.at(i);
            let copy = owned(id);
            r.push(copy);
            assert(texts(r@) =~= done.push(copy@));
            i += 1;
        }
        r
    }

    /// A request for the list of sessions. The polls of their processes come in the order of the
    /// ids, and are recorded first.
    pub fn list_sessions(&mut self, polls: &Vec<Option<ExitStatus>>) -> (r: String)
        requires
            old(self).wf(),
            old(self).polls_fit(polls@),
        ensures
            old(self).reaps_all(polls@, *final(self)),
            r@ == final(self).listing(),
    {
        self.reap_all(polls);
        self.list_text()
    }

    fn list_text(&self) -> (r: String)
        requires
            self.wf(),
        ensures
            r@ == self.listing(),
    {
        if self.sessions.len() == 0 {
            return owned("No sessions");
        }
        let base = self.http_base_url();
        let ghost all = Seq::new(
            self.sessions.ids().len(),
            |i: int|
                session_line(
                    self.sessions.ids()[i],
                    self.sessions@[self.sessions.ids()[i]],
                    base_url(self.http_port),
                ),
        );
        let mut lines: Vec<String> = Vec::new();
        let mut i: usize = 0;
        while i < self.sessions.len()
            invariant
                self.wf(),
                base@ == base_url(self.http_port),
                all == Seq::new(
                    self.sessions.ids().len(),
                    |i: int|
                        session_line(
                            self.sessions.ids()[i],
                            self.sessions@[self.sessions.ids()[i]],
                            base_url(self.http_port),
                        ),
                ),
                i <= self.sessions.ids().len(),
                texts(lines@) == all.take(i as int),
            decreases self.sessions.ids().len() - i,
        {
            let ghost done = texts(lines@);
            let (id, session) = self.sessions.at(i);
            let line = line_of(id, session, base.as_str());
            lines.push(line);
            assert(texts(lines@) =~= done.push(line@));
            i += 1;
        }
        assert(all.take(i as int) =~= all);
        let mut r = owned("Sessions:\n");
        let joined = join_strings(&lines, "\n");
        r.append(joined.as_str());
        r
    }
}

/// A session whose process was taken out of it or has ended does not run any more, whatever a
/// later poll reports.
pub proof fn law_ended_session_does_not_run<P, T>(
    session: Session<P, T>,
    poll: Option<ExitStatus>,
)
    requires
        session.process is None,
    ensures
        status_report(session.polled(poll)) == "Running: false, Exit code: "@ + debug_code(
            session.exit_code,
        ),
        status_word(session.polled(poll)) != "running"@,
{
    reveal_strlit("Running: ");
    reveal_strlit("false");
    reveal_strlit(", Exit code: ");
    reveal_strlit("Running: false, Exit code: ");
    reveal_strlit("running");
    reveal_strlit("exited (");
    reveal_strlit("unknown");
    assert("running"@[0] == 'r');
}

/// Exit codes are shown differently where they differ, a code of 0 and a missing code among them.
pub proof fn law_shown_codes_differ(a: Option<i32>, b: Option<i32>)
    ensures
        debug_code(a) == debug_code(b) ==> a == b,
        a is Some ==> debug_code(a) == "Some("@ + decimal_int(a->0 as int) + ")"@,
        a is None ==> debug_code(a) == "None"@,
        debug_code(Some(0)) == "Some(0)"@,
{
    reveal_strlit("Some(");
    reveal_strlit(")");
    reveal_strlit("None");
    reveal_strlit("Some(0)");
    crate::text::law_numbers_are_written_by_tens(0, 0);
    assert(debug_code(Some(0i32)) =~= "Some(0)"@);
    if debug_code(a) == debug_code(b) {
        if a is Some && b is Some {
            let sa = debug_code(a);
            let sb = debug_code(b);
            assert(sa.subrange(5, sa.len() - 1) =~= decimal_int(a->0 as int));
            assert(sb.subrange(5, sb.len() - 1) =~= decimal_int(b->0 as int));
            crate::text::law_signed_numbers_are_told_apart(a->0 as int, b->0 as int);
        } else if a is Some {
            assert(debug_code(a)[0] == 'S');
            assert(debug_code(b)[0] == 'N');
        } else if b is Some {
            assert(debug_code(b)[0] == 'S');
            assert(debug_code(a)[0] == 'N');
        }
    }
}

/// The status of a session says whether it runs and what its exit code is: two sessions that
/// differ in one of them have different reports.
pub proof fn law_status_tells_sessions_apart<P, T>(a: Session<P, T>, b: Session<P, T>)
    ensures
        a.process is Some ==> status_report(a) == "Running: true, Exit code: "@ + debug_code(
            a.exit_code,
        ),
        a.process is None ==> status_report(a) == "Running: false, Exit code: "@ + debug_code(
            a.exit_code,
        ),
        status_report(a) == status_report(b) ==> (a.process is Some <==> b.process is Some)
            && a.exit_code == b.exit_code,
{
    lemma_status_is_worded(a);
    lemma_status_is_worded(b);
    reveal_strlit("Running: true, Exit code: ");
    reveal_strlit("Running: false, Exit code: ");
    let ra = status_report(a);
    let rb = status_report(b);
    if ra == rb {
        assert(ra[9] == if a.process is Some {
            't'
        } else {
            'f'
        });
        assert(rb[9] == if b.process is Some {
            't'
        } else {
            'f'
        });
        let n: int = if a.process is Some {
            26
        } else {
            27
        };
        assert(ra.skip(n) =~= debug_code(a.exit_code));
        assert(rb.skip(n) =~= debug_code(b.exit_code));
        law_shown_codes_differ(a.exit_code, b.exit_code);
    }
}

proof fn lemma_status_is_worded<P, T>(a: Session<P, T>)
    ensures
        status_report(a) == if a.process is Some {
            "Running: true, Exit code: "@
        } else {
            "Running: false, Exit code: "@
        } + debug_code(a.exit_code),
{
    reveal_strlit("Running: ");
    reveal_strlit("true");
    reveal_strlit("false");
    reveal_strlit(", Exit code: ");
    reveal_strlit("Running: true, Exit code: ");
    reveal_strlit("Running: false, Exit code: ");
    assert("Running: true, Exit code: "@ =~= "Running: "@ + "true"@ + ", Exit code: "@);
    assert("Running: false, Exit code: "@ =~= "Running: "@ + "false"@ + ", Exit code: "@);
}

/// A session runs, has exited with its code, or is unknown: the word for it says which, whatever
/// the code is.
pub proof fn law_status_word_says_which<P, T>(session: Session<P, T>)
    ensures
        session.process is Some ==> status_word(session) == "running"@,
        session.process is None && session.exit_code is Some ==> status_word(session)
            == "exited ("@ + decimal_int(session.exit_code->0 as int) + ")"@,
        session.process is None && session.exit_code is None ==> status_word(session)
            == "unknown"@,
{
}

/// The line of a session in the list holds, in this order, its id, its label in brackets where it
/// has one, its command, its status and the address of its page.
pub proof fn law_listed_line_is_complete<P, T>(
    id: Seq<char>,
    session: Session<P, T>,
    base: Seq<char>,
)
    ensures
        session.label is None ==> session_line(id, session, base) == "  "@ + id + ": "@
            + session.command@ + " ("@ + status_word(session) + ") — "@ + base + "/session/"@ + id,
        session.label is Some ==> session_line(id, session, base) == "  "@ + id + " ["@
            + session.label->0@ + "]: "@ + session.command@ + " ("@ + status_word(session) + ") — "@
            + base + "/session/"@ + id,
{
    reveal_strlit("]");
    reveal_strlit(": ");
    reveal_strlit("]: ");
    assert("]: "@ =~= "]"@ + ": "@);
    if session.label is None {
        assert("  "@ + id + label_tag(session.label) =~= "  "@ + id);
    } else {
        let label = session.label->0@;
        assert("  "@ + id + label_tag(session.label) + ": "@ =~= "  "@ + id + " ["@ + label
            + "]: "@);
    }
}

/// A list of sessions has one line for each, in the order of the ids: the list is the heading and
/// then those lines, and an empty one says that there are none.
pub proof fn law_list_has_a_line_for_each_session<P, T>(runner: Runner<P, T>)
    ensures
        runner.sessions.ids().len() == 0 ==> runner.listing() == "No sessions"@,
        runner.sessions.ids().len() > 0 ==> exists|lines: Seq<Seq<char>>|
            {
                &&& runner.listing() == "Sessions:\n"@ + #[trigger] join_with(lines, "\n"@)
                &&& lines.len() == runner.sessions.ids().len()
                &&& forall|i: int|
                    0 <= i < lines.len() ==> {
                        let id = runner.sessions.ids()[i];
                        #[trigger] lines[i] == session_line(
                            id,
                            runner.sessions@[id],
                            "http://localhost:"@ + crate::text::decimal(runner.http_port as nat),
                        )
                    }
            },
{
    if runner.sessions.ids().len() > 0 {
        let lines = Seq::new(
            runner.sessions.ids().len(),
            |i: int|
                session_line(
                    runner.sessions.ids()[i],
                    runner.sessions@[runner.sessions.ids()[i]],
                    base_url(runner.http_port),
                ),
        );
        assert(runner.listing() == "Sessions:\n"@ + join_with(lines, "\n"@));
    }
}

/// Once every session has recorded its poll, one whose process was found to have ended has no
/// process and the exit code of its status, every other one is as before, and nothing else has
/// changed.
pub proof fn law_reaping_records_each_poll<P, T>(
    before: Runner<P, T>,
    polls: Seq<Option<ExitStatus>>,
    after: Runner<P, T>,
    i: int,
)
    requires
        before.polls_fit(polls),
        before.reaps_all(polls, after),
        0 <= i < before.sessions.ids().len(),
    ensures
        polls.len() == before.sessions.ids().len(),
        after.sessions.ids() == before.sessions.ids(),
        after.next_id == before.next_id,
        after.log_level == before.log_level,
        after.http_port == before.http_port,
        ({
            let id = before.sessions.ids()[i];
            let old_session = before.sessions@[id];
            if old_session.process is Some && polls[i] is Some {
                after.sessions@[id] == (Session {
                    process: None,
                    exit_code: polls[i]->0.exit_code(),
                    ..old_session
                })
            } else {
                after.sessions@[id] == old_session
            }
        }),
{
}

/// What became of a process that was to be killed can be recorded, unless it ended by a signal
/// whose number is no number of a signal.
pub proof fn law_kill_outcome_fits(outcome: KillOutcome)
    ensures
        outcome is NotRunning ==> outcome.fits(),
        outcome is Failed ==> outcome.fits(),
        outcome matches KillOutcome::Ended(status) ==> (status.code is Some || status.signal is None
            || status.signal->0 <= 2_147_483_519 ==> outcome.fits()),
{
}

} // verus!

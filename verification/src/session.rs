//! Sessions: one per started command, kept until it is deleted.

use vstd::prelude::*;

use crate::text::{decimal_int, owned, push_decimal_int, same_text, texts};

verus! {

/// How a process ended: with an exit code, or by a signal.
#[derive(Clone, Copy, Debug)]
pub struct ExitStatus {
    pub code: Option<i32>,
    pub signal: Option<i32>,
}

impl ExitStatus {
    /// The signal number leaves room for the 128 that a shell adds to it.
    pub open spec fn fits(self) -> bool {
        self.code is None && self.signal is Some ==> self.signal->0 + 128 <= i32::MAX
    }

    /// The exit code, or 128 plus the number of the signal.
    pub open spec fn exit_code(self) -> Option<i32> {
        match (self.code, self.signal) {
            (Some(code), _) => Some(code),
            (None, Some(signal)) => Some((128 + signal) as i32),
            (None, None) => None,
        }
    }
}

/// The exit code of an ended process: its own, or 128 plus the number of the signal that ended
/// it.
pub fn exit_code_from_status(status: ExitStatus) -> (r: Option<i32>)
    requires
        status.fits(),
    ensures
        r == status.exit_code(),
{
    match status.code {
        Some(code) => Some(code),
        None => match status.signal {
            Some(signal) => Some(128 + signal),
            None => None,
        },
    }
}

/// A running process: one on pipes, or one inside a pseudo-terminal.
pub enum ProcessHandle<P, T> {
    Pipe(P),
    Pty(T),
}

/// A command that was started.
pub struct Session<P, T> {
    /// The process while it runs.
    pub process: Option<ProcessHandle<P, T>>,
    pub is_pty: bool,
    pub label: Option<String>,
    /// The command line, for display.
    pub command: String,
    pub stdout_path: String,
    pub stderr_path: Option<String>,
    /// How many bytes of standard output were read.
    pub stdout_pos: u64,
    /// How many bytes of standard error were read.
    pub stderr_pos: u64,
    pub exit_code: Option<i32>,
    pub stream_log: bool,
}

/// An exit code, where one is known, or -1.
pub open spec fn code_or_unknown(code: Option<i32>) -> int {
    match code {
        Some(c) => c as int,
        None => -1,
    }
}

/// What a reader is told when the process is found to have ended.
pub open spec fn exit_notice(code: Option<i32>) -> Seq<char> {
    "[process exited with code "@ + decimal_int(code_or_unknown(code)) + "]"@
}

impl<P, T> Session<P, T> {
    /// The session once its process has ended with that status.
    pub open spec fn ended(self, status: ExitStatus) -> Self {
        Session { process: None, exit_code: status.exit_code(), ..self }
    }

    /// The session once its process was polled.
    pub open spec fn polled(self, poll: Option<ExitStatus>) -> Self {
        match (self.process, poll) {
            (Some(_), Some(status)) => self.ended(status),
            _ => self,
        }
    }

    /// What the poll tells a reader.
    pub open spec fn poll_notice(self, poll: Option<ExitStatus>) -> Option<Seq<char>> {
        match (self.process, poll) {
            (Some(_), Some(status)) => Some(exit_notice(status.exit_code())),
            _ => None,
        }
    }
}

/// The view of an optional string.
pub open spec fn opt_view(s: Option<String>) -> Option<Seq<char>> {
    match s {
        Some(t) => Some(t@),
        None => None,
    }
}

/// Whether every status that a poll reports is one that an exit code can be made of.
pub open spec fn poll_fits(poll: Option<ExitStatus>) -> bool {
    poll is Some ==> poll->0.fits()
}

/// Records in the session what a poll of its process reported: `poll` is the status of a process
/// that has ended. Returns the notice for the reader when the process is found to have ended.
pub fn reap_session<P, T>(session: &mut Session<P, T>, poll: Option<ExitStatus>) -> (r: Option<
    String,
>)
    requires
        poll_fits(poll),
    ensures
        *final(session) == old(session).polled(poll),
        opt_view(r) == old(session).poll_notice(poll),
{
    if session.process.is_none() {
        return None;
    }
    match poll {
        None => None,
        Some(status) => {
            let code = exit_code_from_status(status);
            session.exit_code = code;
            session.process = None;
            let known: i32 = match code {
                Some(c) => c,
                None => -1,
            };
            let mut notice = owned("[process exited with code ");
            push_decimal_int(&mut notice, known);
            notice.append("]");
            Some(notice)
        },
    }
}

/// The end of a process is reported once: a session whose end was found stays as it is, and no
/// later poll tells a reader of it again.
pub proof fn law_exit_is_reported_once<P, T>(
    session: Session<P, T>,
    status: ExitStatus,
    later: Option<ExitStatus>,
)
    ensures
        session.polled(Some(status)).polled(later) == session.polled(Some(status)),
        session.polled(Some(status)).poll_notice(later) is None,
{
}

struct Entry<P, T> {
    id: String,
    session: Session<P, T>,
}

/// The sessions by their ids, in the order in which they were added.
pub struct Sessions<P, T> {
    entries: Vec<Entry<P, T>>,
}

impl<P, T> Sessions<P, T> {
    /// The ids in the order of the table.
    pub closed spec fn ids(self) -> Seq<Seq<char>> {
        self.entries@.map_values(|e: Entry<P, T>| e.id@)
    }

    /// The sessions in the order of the table.
    pub closed spec fn in_order(self) -> Seq<Session<P, T>> {
        self.entries@.map_values(|e: Entry<P, T>| e.session)
    }

    /// No id occurs twice.
    pub open spec fn wf(self) -> bool {
        &&& self.ids().len() == self.in_order().len()
        &&& self.ids().no_duplicates()
    }

    /// The sessions by their ids.
    pub open spec fn view(self) -> Map<Seq<char>, Session<P, T>> {
        Map::new(
            |id: Seq<char>| self.ids().contains(id),
            |id: Seq<char>| self.in_order()[self.ids().index_of(id)],
        )
    }

    /// A table without sessions.
    pub fn new() -> (r: Self)
        ensures
            r.wf(),
            r.ids() == Seq::<Seq<char>>::empty(),
            r@ == Map::<Seq<char>, Session<P, T>>::empty(),
    {
        let r = Sessions { entries: Vec::new() };
        r
    }

    fn find(&self, id: &str) -> (r: Option<usize>)
        ensures
            match r {
                Some(i) => i < self.entries@.len() && self.ids()[i as int] == id@,
                None => !self.ids().contains(id@),
            },
    {
        let mut i: usize = 0;
        while i < self.entries.len()
            invariant
                i <= self.entries@.len(),
                forall|j: int| 0 <= j < i ==> self.ids()[j] != id@,
            decreases self.entries@.len() - i,
        {
            if same_text(self.entries[i].id.as_str(), id) {
                return Some(i);
            }
            i += 1;
        }
        None
    }

    /// The session with that id.
    pub fn get(&self, id: &str) -> (r: Option<&Session<P, T>>)
        requires
            self.wf(),
        ensures
            match r {
                Some(s) => self@.contains_key(id@) && *s == self@[id@],
                None => !self@.contains_key(id@),
            },
    {
        match self.find(id) {
            Some(i) => {
                Some(&self.entries[i].session)
            },
            None => None,
        }
    }

    proof fn lemma_replaced(self, t: Self, i: int)
        requires
            self.wf(),
            0 <= i < self.entries@.len(),
            t.entries@ == self.entries@.update(i, t.entries@[i]),
            t.entries@[i].id@ == self.ids()[i],
        ensures
            t.wf(),
            t.ids() == self.ids(),
            t@ == self@.insert(self.ids()[i], t.entries@[i].session),
    {
        assert(t.ids() =~= self.ids());
        assert(t@ =~= self@.insert(self.ids()[i], t.entries@[i].session));
    }

    /// The session with that id, to change it.
    pub fn get_mut(&mut self, id: &str) -> (r: Option<&mut Session<P, T>>)
        requires
            old(self).wf(),
        ensures
            final(self).wf(),
            final(self).ids() == old(self).ids(),
            match r {
                Some(s) => {
                    &&& old(self)@.contains_key(id@)
                    &&& *s == old(self)@[id@]
                    &&& final(self)@ == old(self)@.insert(id@, *final(s))
                },
                None => !old(self)@.contains_key(id@) && final(self)@ == old(self)@,
            },
    {
        match self.find(id) {
            Some(i) => {
                proof {
                    let before = *self;
                    assert forall|t: Self|
                        t.entries@ == before.entries@.update(i as int, t.entries@[i as int])
                            && t.entries@[i as int].id == before.entries@[i as int].id implies {
                        &&& #[trigger] t.wf()
                        &&& t.ids() == before.ids()
                        &&& t@ == before@.insert(id@, t.entries@[i as int].session)
                    } by {
                        before.lemma_replaced(t, i as int);
                    }
                }
                Some(&mut self.entries[i].session)
            },
            None => None,
        }
    }

    /// How many sessions there are.
    pub fn len(&self) -> (r: usize)
        ensures
            r == self.ids().len(),
    {
        self.entries.len()
    }

    /// The id and the session at a place of the table.
    pub fn at(&self, i: usize) -> (r: (&str, &Session<P, T>))
        requires
            self.wf(),
            i < self.ids().len(),
        ensures
            r.0@ == self.ids()[i as int],
            *r.1 == self.in_order()[i as int],
            self@.contains_key(r.0@),
            *r.1 == self@[r.0@],
    {
        (self.entries[i].id.as_str(), &self.entries[i].session)
    }

    /// Adds a session. One that has the same id already is replaced where it stands.
    pub fn insert(&mut self, id: String, session: Session<P, T>)
        requires
            old(self).wf(),
        ensures
            final(self).wf(),
            final(self)@ == old(self)@.insert(id@, session),
            final(self).ids() == if old(self)@.contains_key(id@) {
                old(self).ids()
            } else {
                old(self).ids().push(id@)
            },
    {
        let ghost before = *self;
        match self.find(id.as_str()) {
            Some(i) => {
                self.entries[i].session = session;
                proof {
                    before.lemma_replaced(*self, i as int);
                }
            },
            None => {
                self.entries.push(Entry { id, session });
                proof {
                    assert(self.ids() =~= before.ids().push(id@));
                    assert(self.ids()[before.ids().len() as int] == id@);
                    assert forall|k: Seq<char>| before.ids().contains(k) implies self.ids().contains(
                        k,
                    ) && self.ids().index_of(k) == before.ids().index_of(k) by {
                        let j = before.ids().index_of(k);
                        assert(self.ids()[j] == k);
                    }
                    assert forall|k: Seq<char>| self.ids().contains(k) && k
                        != id@ implies before.ids().contains(k) by {
                        assert(before.ids()[self.ids().index_of(k)] == k);
                    }
                }
            },
        }
    }

    /// Takes a session out of the table.
    pub fn remove(&mut self, id: &str) -> (r: Option<Session<P, T>>)
        requires
            old(self).wf(),
        ensures
            final(self).wf(),
            final(self)@ == old(self)@.remove(id@),
            final(self).ids() == if old(self)@.contains_key(id@) {
                old(self).ids().remove(old(self).ids().index_of(id@))
            } else {
                old(self).ids()
            },
            match r {
                Some(s) => old(self)@.contains_key(id@) && s == old(self)@[id@],
                None => !old(self)@.contains_key(id@),
            },
    {
        let ghost before = *self;
        match self.find(id) {
            Some(i) => {
                let entry = self.entries.remove(i);
                proof {
                    let ids = before.ids();
                    assert(self.ids() =~= ids.remove(i as int));
                    assert forall|k: Seq<char>| self.ids().contains(k) <==> ids.contains(k) && k
                        != id@ by {
                        if self.ids().contains(k) {
                            let j = self.ids().index_of(k);
                            assert(ids[if j < i { j } else { j + 1 }] == k);
                        }
                        if ids.contains(k) && k != id@ {
                            let j = ids.index_of(k);
                            assert(self.ids()[if j < i { j } else { j - 1 }] == k);
                        }
                    }
                    assert forall|k: Seq<char>| self.ids().contains(k) implies self@[k]
                        == before@[k] by {
                        let j = self.ids().index_of(k);
                        assert(ids[if j < i { j } else { j + 1 }] == k);
                    }
                }
                Some(entry.session)
            },
            None => {
                None
            },
        }
    }

    /// Takes every session out of the table, in its order.
    pub fn take_all(&mut self) -> (r: Vec<Session<P, T>>)
        requires
            old(self).wf(),
        ensures
            final(self).wf(),
            final(self)@ == Map::<Seq<char>, Session<P, T>>::empty(),
            final(self).ids() == Seq::<Seq<char>>::empty(),
            r@ == old(self).in_order(),
    {
        let ghost all = self.in_order();
        let mut r: Vec<Session<P, T>> = Vec::new();
        while self.entries.len() > 0
            invariant
                r@ + self.in_order() == all,
            decreases self.entries@.len(),
        {
            let entry = self.entries.remove(0);
            r.push(entry.session);
        }
        r
    }
}

/// What is left to do when a session is gone: end its process, delete its log files.
pub struct Cleanup<P, T> {
    pub process: Option<ProcessHandle<P, T>>,
    pub paths: Vec<String>,
}

/// The log files of a session.
pub open spec fn log_paths<P, T>(session: Session<P, T>) -> Seq<Seq<char>> {
    match session.stderr_path {
        Some(path) => seq![session.stdout_path@, path@],
        None => seq![session.stdout_path@],
    }
}

impl<P, T> Cleanup<P, T> {
    /// Whether this ends that session: its process if it still runs, and all of its log files.
    pub open spec fn ends(self, session: Session<P, T>) -> bool {
        self.process == session.process && texts(self.paths@) == log_paths(session)
    }
}

fn cleanup_of<P, T>(session: Session<P, T>) -> (r: Cleanup<P, T>)
    ensures
        r.ends(session),
{
    let mut paths: Vec<String> = Vec::new();
    paths.push(session.stdout_path);
    match session.stderr_path {
        Some(path) => {
            paths.push(path);
        },
        None => {},
    }
    assert(texts(paths@) =~= log_paths(session));
    Cleanup { process: session.process, paths }
}

/// Removes a session from the table. What it returns is to be cleaned up.
pub fn remove_session<P, T>(session_id: &str, sessions: &mut Sessions<P, T>) -> (r: Option<
    Cleanup<P, T>,
>)
    requires
        old(sessions).wf(),
    ensures
        final(sessions).wf(),
        final(sessions)@ == old(sessions)@.remove(session_id@),
        match r {
            Some(c) => old(sessions)@.contains_key(session_id@) && c.ends(
                old(sessions)@[session_id@],
            ),
            None => !old(sessions)@.contains_key(session_id@),
        },
{
    match sessions.remove(session_id) {
        Some(session) => Some(cleanup_of(session)),
        None => None,
    }
}

/// Removes every session from the table. What it returns is to be cleaned up.
pub fn cleanup_all_sessions<P, T>(sessions: &mut Sessions<P, T>) -> (r: Vec<Cleanup<P, T>>)
    requires
        old(sessions).wf(),
    ensures
        final(sessions).wf(),
        final(sessions)@ == Map::<Seq<char>, Session<P, T>>::empty(),
        r@.len() == old(sessions).ids().len(),
        forall|i: int|
            0 <= i < r@.len() ==> (#[trigger] r@[i]).ends(
                old(sessions)@[old(sessions).ids()[i]],
            ),
{
    let ghost before = *sessions;
    let mut all = sessions.take_all();
    let mut r: Vec<Cleanup<P, T>> = Vec::new();
    while all.len() > 0
        invariant
            r@.len() + all@.len() == before.in_order().len(),
            all@ == before.in_order().skip(r@.len() as int),
            forall|i: int| 0 <= i < r@.len() ==> (#[trigger] r@[i]).ends(before.in_order()[i]),
        decreases all@.len(),
    {
        let session = all.remove(0);
        r.push(cleanup_of(session));
    }
    r
}

/// A process that exits has its own exit code, one that a signal ends has 128 and the number of
/// the signal, and one of which neither is known has none. Only a number of a signal that is out
/// of range leaves none to be made.
pub proof fn law_exit_code_of_a_status(status: ExitStatus, code: i32, signal: i32)
    ensures
        status.code == Some(code) ==> status.exit_code() == Some(code),
        status.code is None && status.signal == Some(signal) && signal <= 2_147_483_519 ==> {
            &&& status.exit_code() is Some
            &&& status.exit_code()->0 == 128 + signal
        },
        status.code is None && status.signal is None ==> status.exit_code() is None,
        status.fits() <==> status.code is Some || status.signal is None || status.signal->0
            <= 2_147_483_519,
        poll_fits(Some(status)) <==> status.fits(),
        poll_fits(None),
{
}

/// The notice of the end of a process names its exit code, and -1 where it has none. Notices of
/// different codes differ.
pub proof fn law_exit_notice_names_the_code(a: i32, b: i32)
    ensures
        exit_notice(Some(a)) == "[process exited with code "@ + decimal_int(a as int) + "]"@,
        exit_notice(None) == "[process exited with code -1]"@,
        exit_notice(Some(a)) == exit_notice(Some(b)) ==> a == b,
{
    reveal_strlit("[process exited with code ");
    reveal_strlit("]");
    reveal_strlit("[process exited with code -1]");
    crate::text::law_numbers_are_written_by_tens(0, 1);
    crate::text::law_signed_numbers_are_told_apart(1, 1);
    assert(exit_notice(None) =~= "[process exited with code -1]"@);
    let na = exit_notice(Some(a));
    let nb = exit_notice(Some(b));
    if na == nb {
        assert(na.subrange(26, na.len() - 1) =~= decimal_int(a as int));
        assert(nb.subrange(26, nb.len() - 1) =~= decimal_int(b as int));
        crate::text::law_signed_numbers_are_told_apart(a as int, b as int);
    }
}

/// A poll that finds the process of a session ended takes the process out, records the exit code
/// and gives the notice; any other poll changes nothing and gives none. Whatever a poll finds, all
/// else of the session stays.
pub proof fn law_poll_records_the_end<P, T>(session: Session<P, T>, poll: Option<ExitStatus>)
    ensures
        ({
            let after = session.polled(poll);
            let found = session.process is Some && poll is Some;
            &&& found ==> after.process is None && after.exit_code == poll->0.exit_code()
            &&& found ==> session.poll_notice(poll) == Some(exit_notice(after.exit_code))
            &&& !found ==> after == session && session.poll_notice(poll) is None
            &&& after.is_pty == session.is_pty
            &&& after.label == session.label
            &&& after.command == session.command
            &&& after.stdout_path == session.stdout_path
            &&& after.stderr_path == session.stderr_path
            &&& after.stdout_pos == session.stdout_pos
            &&& after.stderr_pos == session.stderr_pos
            &&& after.stream_log == session.stream_log
        }),
{
}

/// Each session of a table is found under its own id, and nothing is found under any other.
pub proof fn law_sessions_are_found_by_id<P, T>(sessions: Sessions<P, T>, i: int, id: Seq<char>)
    requires
        sessions.wf(),
        0 <= i < sessions.ids().len(),
    ensures
        sessions@.contains_key(sessions.ids()[i]),
        sessions@[sessions.ids()[i]] == sessions.in_order()[i],
        sessions@.contains_key(id) <==> sessions.ids().contains(id),
{
    let found = sessions.ids().index_of(sessions.ids()[i]);
    assert(sessions.ids().contains(sessions.ids()[i]));
    assert(sessions.ids()[found] == sessions.ids()[i]);
}

/// What a session leaves to be cleaned up is its process and its log files, both of them where
/// standard error has a log of its own.
pub proof fn law_cleanup_covers_the_session<P, T>(cleanup: Cleanup<P, T>, session: Session<P, T>)
    requires
        cleanup.ends(session),
    ensures
        cleanup.process == session.process,
        cleanup.paths@.len() > 0,
        cleanup.paths@[0]@ == session.stdout_path@,
        session.stderr_path is Some <==> cleanup.paths@.len() == 2,
        session.stderr_path is None <==> cleanup.paths@.len() == 1,
        session.stderr_path is Some ==> cleanup.paths@[1]@ == session.stderr_path->0@,
{
    let paths = texts(cleanup.paths@);
    assert(paths.len() == cleanup.paths@.len());
    assert(paths[0] == cleanup.paths@[0]@);
    if session.stderr_path is Some {
        assert(paths[1] == cleanup.paths@[1]@);
    }
}

/// An optional string has contents exactly where it is there, and they are its own.
pub proof fn law_optional_contents(s: Option<String>)
    ensures
        s is Some <==> opt_view(s) is Some,
        s is Some ==> opt_view(s)->0 == s->0@,
{
}

} // verus!

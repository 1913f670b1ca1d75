//! Signals by name.

use vstd::prelude::*;
use vstd::utf8::*;

use crate::protocol::{err, ErrorData, SendSignalArgs};
use crate::runner::Runner;
use crate::session::{poll_fits, ExitStatus, ProcessHandle};
use crate::text::{owned, same_text};

verus! {

/// The signals that a client can send.
#[derive(Clone, Copy, Debug, PartialEq, Eq, Structural)]
pub enum Signal {
    Int,
    Term,
    Kill,
    Stop,
    Cont,
    Hup,
    Quit,
}

/// `s` in upper case, by the Unicode mapping.
pub uninterp spec fn uppercased(s: Seq<char>) -> Seq<char>;

/// An ASCII letter in upper case. Any other character stays as it is.
pub open spec fn ascii_upper(c: char) -> char {
    if 'a' <= c && c <= 'z' {
        (c as u32 - 32) as char
    } else {
        c
    }
}

/// `str::to_uppercase`. The result is a function of the text. In ASCII text the small letters
/// become the capital ones and nothing else changes.
#[verifier::external_body]
fn to_uppercase(s: &str) -> (r: String)
    ensures
        r@ == uppercased(s@),
        is_ascii_chars(s@) ==> r@ == s@.map_values(|c: char| ascii_upper(c)),
{
    s.to_uppercase()
}

/// The signal with that name in capital letters.
pub open spec fn signal_of(name: Seq<char>) -> Option<Signal> {
    if name == "SIGINT"@ {
        Some(Signal::Int)
    } else if name == "SIGTERM"@ {
        Some(Signal::Term)
    } else if name == "SIGKILL"@ {
        Some(Signal::Kill)
    } else if name == "SIGSTOP"@ {
        Some(Signal::Stop)
    } else if name == "SIGCONT"@ {
        Some(Signal::Cont)
    } else if name == "SIGHUP"@ {
        Some(Signal::Hup)
    } else if name == "SIGQUIT"@ {
        Some(Signal::Quit)
    } else {
        None
    }
}

/// The signal with that name in capital letters.
pub fn signal_by_name(name: &str) -> (r: Option<Signal>)
    ensures
        r == signal_of(name@),
{
    if same_text(name, "SIGINT") {
        Some(Signal::Int)
    } else if same_text(name, "SIGTERM") {
        Some(Signal::Term)
    } else if same_text(name, "SIGKILL") {
        Some(Signal::Kill)
    } else if same_text(name, "SIGSTOP") {
        Some(Signal::Stop)
    } else if same_text(name, "SIGCONT") {
        Some(Signal::Cont)
    } else if same_text(name, "SIGHUP") {
        Some(Signal::Hup)
    } else if same_text(name, "SIGQUIT") {
        Some(Signal::Quit)
    } else {
        None
    }
}

/// The signal with that name, in capital or small letters.
pub fn parse_signal(name: &str) -> (r: Result<Signal, ErrorData>)
    ensures
        match r {
            Ok(signal) => signal_of(uppercased(name@)) == Some(signal),
            Err(e) => {
                &&& signal_of(uppercased(name@)) is None
                &&& e.is_internal("Unsupported signal: "@ + name@)
            },
        },
        is_ascii_chars(name@) ==> uppercased(name@) == name@.map_values(|c: char| ascii_upper(c)),
{
    let upper = to_uppercase(name);
    match signal_by_name(upper.as_str()) {
        Some(signal) => Ok(signal),
        None => {
            let mut message = owned("Unsupported signal: ");
            message.append(name);
            Err(err(message.as_str()))
        },
    }
}

/// The process id to signal, as the system takes it. A process that was waited for has none.
pub fn signal_target(pid: Option<u32>) -> (r: Result<i32, ErrorData>)
    ensures
        match r {
            Ok(p) => pid is Some && p == pid->0 as i32,
            Err(e) => pid is None && e.is_internal("Process already exited"@),
        },
{
    match pid {
        Some(p) => Ok(p as i32),
        None => Err(err("Process already exited")),
    }
}

impl<P, T> Runner<P, T> {
    /// The running process of a session.
    pub fn running_process(&self, id: &str) -> (r: Result<&ProcessHandle<P, T>, ErrorData>)
        requires
            self.wf(),
        ensures
            match r {
                Ok(process) => {
                    &&& self.sessions@.contains_key(id@)
                    &&& self.sessions@[id@].process == Some(*process)
                },
                Err(e) => {
                    ||| !self.sessions@.contains_key(id@) && e.is_internal("Session not found"@)
                    ||| {
                        &&& self.sessions@.contains_key(id@)
                        &&& self.sessions@[id@].process is None
                        &&& e.is_internal("Process not running"@)
                    }
                },
            },
    {
        match self.sessions.get(id) {
            Some(session) => match &session.process {
                Some(process) => Ok(process),
                None => Err(err("Process not running")),
            },
            None => Err(err("Session not found")),
        }
    }

    /// A request to send a signal: the signal, and the process to send it to.
    pub fn send_signal(&self, args: &SendSignalArgs) -> (r: Result<
        (Signal, &ProcessHandle<P, T>),
        ErrorData,
    >)
        requires
            self.wf(),
        ensures
            match r {
                Ok((signal, process)) => {
                    &&& signal_of(uppercased(args.signal@)) == Some(signal)
                    &&& self.sessions@.contains_key(args.session_id@)
                    &&& self.sessions@[args.session_id@].process == Some(*process)
                },
                Err(e) => {
                    if signal_of(uppercased(args.signal@)) is None {
                        e.is_internal("Unsupported signal: "@ + args.signal@)
                    } else if !self.sessions@.contains_key(args.session_id@) {
                        e.is_internal("Session not found"@)
                    } else {
                        &&& self.sessions@[args.session_id@].process is None
                        &&& e.is_internal("Process not running"@)
                    }
                },
            },
            is_ascii_chars(args.signal@) ==> uppercased(args.signal@) == args.signal@.map_values(
                |c: char| ascii_upper(c),
            ),
    {
        match parse_signal(args.signal.as_str()) {
            Ok(signal) => match self.running_process(args.session_id.as_str()) {
                Ok(process) => Ok((signal, process)),
                Err(e) => Err(e),
            },
            Err(e) => Err(e),
        }
    }

    /// A signal was sent and the process polled a moment later: records what the poll reported,
    /// and returns what the client is told.
    pub fn signal_sent(&mut self, args: &SendSignalArgs, poll: Option<ExitStatus>) -> (r: String)
        requires
            old(self).wf(),
            poll_fits(poll),
        ensures
            final(self).wf(),
            final(self).same_but_sessions(*old(self)),
            final(self).sessions.ids() == old(self).sessions.ids(),
            final(self).sessions@ == if old(self).sessions@.contains_key(args.session_id@) {
                old(self).sessions@.insert(
                    args.session_id@,
                    old(self).sessions@[args.session_id@].polled(poll),
                )
            } else {
                old(self).sessions@
            },
            r@ == "Signal "@ + args.signal@ + " sent"@,
    {
        let _ = self.reap(args.session_id.as_str(), poll);
        let mut r = owned("Signal ");
        r.append(args.signal.as_str());
        r.append(" sent");
        r
    }
}

/// The seven signals have their names, each name is that of one signal, and no other text is the
/// name of one.
pub proof fn law_signals_go_by_their_names(name: Seq<char>)
    ensures
        signal_of("SIGINT"@) == Some(Signal::Int),
        signal_of("SIGTERM"@) == Some(Signal::Term),
        signal_of("SIGKILL"@) == Some(Signal::Kill),
        signal_of("SIGSTOP"@) == Some(Signal::Stop),
        signal_of("SIGCONT"@) == Some(Signal::Cont),
        signal_of("SIGHUP"@) == Some(Signal::Hup),
        signal_of("SIGQUIT"@) == Some(Signal::Quit),
        signal_of(name) is Some ==> seq![
            "SIGINT"@,
            "SIGTERM"@,
            "SIGKILL"@,
            "SIGSTOP"@,
            "SIGCONT"@,
            "SIGHUP"@,
            "SIGQUIT"@,
        ].contains(name),
{
    reveal_strlit("SIGINT");
    reveal_strlit("SIGTERM");
    reveal_strlit("SIGKILL");
    reveal_strlit("SIGSTOP");
    reveal_strlit("SIGCONT");
    reveal_strlit("SIGHUP");
    reveal_strlit("SIGQUIT");
    assert("SIGINT"@[3] == 'I' && "SIGTERM"@[3] == 'T' && "SIGKILL"@[3] == 'K' && "SIGSTOP"@[3]
        == 'S' && "SIGCONT"@[3] == 'C' && "SIGHUP"@[3] == 'H' && "SIGQUIT"@[3] == 'Q');
    let all = seq![
        "SIGINT"@,
        "SIGTERM"@,
        "SIGKILL"@,
        "SIGSTOP"@,
        "SIGCONT"@,
        "SIGHUP"@,
        "SIGQUIT"@,
    ];
    assert(all[0] == "SIGINT"@ && all[1] == "SIGTERM"@ && all[2] == "SIGKILL"@ && all[3]
        == "SIGSTOP"@ && all[4] == "SIGCONT"@ && all[5] == "SIGHUP"@ && all[6] == "SIGQUIT"@);
}

/// A small letter becomes the capital one, which stands as far behind `A` as the small one behind
/// `a`; every other character stays as it is.
pub proof fn law_small_letters_become_capital(c: char)
    ensures
        'a' <= c && c <= 'z' ==> 'A' <= ascii_upper(c) && ascii_upper(c) <= 'Z' && ascii_upper(
            c,
        ) as u32 - 'A' as u32 == c as u32 - 'a' as u32,
        !('a' <= c && c <= 'z') ==> ascii_upper(c) == c,
{
}

} // verus!

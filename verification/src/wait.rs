//! Waiting for output: when to stop, and what to return then.
//!
//! Times are nanoseconds on a clock that does not run backwards.

use vstd::prelude::*;

use crate::ansi::{keeps_plain, strip_ansi, stripped};
use crate::protocol::{ReadOutputArgs, SendInputArgs};
use crate::pty::{normalize_pty_output, normalized};
use crate::session::opt_view;
use crate::text::{contains_text, has_text, owned};

verus! {

/// How often a waiting reader looks for output, in milliseconds.
pub const POLL_INTERVAL_MS: u64 = 50;

/// How long a reader waits at most where it does not say, in milliseconds.
pub const DEFAULT_READ_WAIT_MS: u64 = 30_000;

/// After how much silence a reader that waits for no pattern returns, in milliseconds.
pub const READ_IDLE_MS: u64 = 300;

/// After how much silence the answer to an input counts as complete, where the sender does not
/// say, in milliseconds.
pub const DEFAULT_ANSWER_IDLE_MS: u64 = 1_000;

/// After how much silence a sender that waits for a pattern gives up, in milliseconds.
pub const NO_OUTPUT_CAP_MS: u64 = 5_000;

/// How long a sender waits at most, in milliseconds.
pub const WALL_CAP_MS: u64 = 30_000;

/// How often a waiting sender reports progress, in milliseconds.
pub const PROGRESS_INTERVAL_MS: u64 = 1_000;

/// Whether at least `ms` milliseconds have passed between two points in time.
pub open spec fn has_passed(since: u64, now: u64, ms: u64) -> bool {
    now - since >= ms * 1_000_000
}

fn passed(since: u64, now: u64, ms: u64) -> (r: bool)
    requires
        since <= now,
    ensures
        r == has_passed(since, now, ms),
{
    (now - since) as u128 >= ms as u128 * 1_000_000
}

/// What follows the output when the process is found to have ended.
pub open spec fn exit_suffix(exited: Option<Seq<char>>) -> Seq<char> {
    match exited {
        Some(notice) => seq!['\n'] + notice + seq!['\n'],
        None => Seq::empty(),
    }
}

fn push_exit(out: &mut String, exited: Option<String>)
    ensures
        final(out)@ == old(out)@ + exit_suffix(opt_view(exited)),
{
    match exited {
        Some(notice) => {
            out.push('\n');
            out.append(notice.as_str());
            out.push('\n');
        },
        None => {},
    }
}

/// Output as a reader gets it: normalized, and without escape sequences where asked for.
pub open spec fn cleaned(data: Seq<char>, strip: bool) -> Seq<char> {
    if strip {
        stripped(normalized(data))
    } else {
        normalized(data)
    }
}

/// Output as a reader gets it: normalized, and without escape sequences where asked for.
pub fn clean(data: &str, strip: bool) -> (r: String)
    ensures
        r@ == cleaned(data@, strip),
        strip ==> keeps_plain(normalized(data@)),
{
    let shown = normalize_pty_output(data);
    if strip {
        strip_ansi(shown.as_str())
    } else {
        shown
    }
}

/// What a read that does not wait returns: the new output, and the notice where the process is
/// found to have ended.
pub fn read_report(data: &str, strip: bool, exited: Option<String>) -> (r: String)
    ensures
        r@ == cleaned(data@, strip) + exit_suffix(opt_view(exited)),
        strip ==> keeps_plain(normalized(data@)),
{
    let mut r = clean(data, strip);
    push_exit(&mut r, exited);
    r
}

/// Whether the text that is waited for, if any, has appeared.
pub open spec fn pattern_found(pattern: Option<Seq<char>>, shown: Seq<char>) -> bool {
    pattern is Some && contains_text(shown, pattern->0)
}

fn found(pattern: &Option<String>, shown: &str) -> (r: bool)
    ensures
        r == pattern_found(opt_view(*pattern), shown@),
{
    match pattern {
        Some(p) => has_text(shown, p.as_str()),
        None => false,
    }
}

/// Whether a read waits.
pub open spec fn read_waits(args: ReadOutputArgs) -> bool {
    args.timeout_ms is Some || args.wait_for is Some
}

/// What a waiting read returns at a point in time, or `None` where it goes on waiting.
///
/// `collected` is the output so far and `idle_since` when the last of it came.
pub open spec fn read_outcome(
    collected: Seq<char>,
    pattern: Option<Seq<char>>,
    started: u64,
    max_wait_ms: u64,
    idle_since: u64,
    exited: Option<Seq<char>>,
    now: u64,
) -> Option<Seq<char>> {
    if pattern_found(pattern, collected) || exited is Some {
        Some(collected + exit_suffix(exited))
    } else if has_passed(started, now, max_wait_ms) {
        if collected.len() == 0 {
            Some("(timeout, no output)"@)
        } else {
            Some(collected + "\n(timeout)\n"@)
        }
    } else if pattern is None && collected.len() > 0 && has_passed(idle_since, now, READ_IDLE_MS) {
        Some(collected)
    } else {
        None
    }
}

/// A read that waits for output.
pub struct OutputWait {
    pub collected: String,
    pub strip_ansi: bool,
    pub wait_for: Option<String>,
    pub started: u64,
    pub max_wait_ms: u64,
    pub idle_since: u64,
}

impl OutputWait {
    /// The clock has not run backwards.
    pub open spec fn in_time(self, now: u64) -> bool {
        self.started <= now && self.idle_since <= now
    }

    /// The wait that a request asks for, where it asks for one.
    pub fn begin(args: &ReadOutputArgs, now: u64) -> (r: Option<Self>)
        ensures
            r is Some <==> read_waits(*args),
            r matches Some(w) ==> {
                &&& w.collected@ == Seq::<char>::empty()
                &&& w.strip_ansi == args.strip_ansi
                &&& opt_view(w.wait_for) == opt_view(args.wait_for)
                &&& w.started == now
                &&& w.idle_since == now
                &&& w.max_wait_ms == match args.timeout_ms {
                    Some(ms) => ms,
                    None => DEFAULT_READ_WAIT_MS,
                }
            },
    {
        if args.timeout_ms.is_none() && args.wait_for.is_none() {
            return None;
        }
        let max_wait_ms: u64 = match args.timeout_ms {
            Some(ms) => ms,
            None => DEFAULT_READ_WAIT_MS,
        };
        let wait_for: Option<String> = match &args.wait_for {
            Some(p) => Some(owned(p.as_str())),
            None => None,
        };
        Some(
            OutputWait {
                collected: String::new(),
                strip_ansi: args.strip_ansi,
                wait_for,
                started: now,
                max_wait_ms,
                idle_since: now,
            },
        )
    }

    /// The output so far and when the last of it came, once `fresh` has come too: the new
    /// output as a reader gets it, `None` where there was none.
    pub open spec fn after(self, fresh: Option<Seq<char>>, now: u64) -> (Seq<char>, u64) {
        match fresh {
            Some(text) => (self.collected@ + text, now),
            None => (self.collected@, self.idle_since),
        }
    }

    /// One look at a process that is waited for. `fresh` is its new output as the reader gets
    /// it, `None` where there was none. Returns the answer, or `None` to go on waiting.
    pub fn settle(&mut self, fresh: Option<String>, exited: Option<String>, now: u64) -> (r: Option<
        String,
    >)
        requires
            old(self).in_time(now),
        ensures
            ({
                let (collected, idle_since) = old(self).after(opt_view(fresh), now);
                &&& opt_view(r) == read_outcome(
                    collected,
                    opt_view(old(self).wait_for),
                    old(self).started,
                    old(self).max_wait_ms,
                    idle_since,
                    opt_view(exited),
                    now,
                )
                &&& final(self).idle_since == idle_since
                &&& final(self).collected@ == collected
            }),
            final(self).in_time(now),
            final(self).started == old(self).started,
            final(self).max_wait_ms == old(self).max_wait_ms,
            final(self).strip_ansi == old(self).strip_ansi,
            final(self).wait_for == old(self).wait_for,
    {
        match fresh {
            Some(text) => {
                self.collected.append(text.as_str());
                self.idle_since = now;
            },
            None => {},
        }
        if found(&self.wait_for, self.collected.as_str()) || exited.is_some() {
            let mut answer = owned(self.collected.as_str());
            push_exit(&mut answer, exited);
            return Some(answer);
        }
        if passed(self.started, now, self.max_wait_ms) {
            if self.collected.as_str().is_empty() {
                return Some(owned("(timeout, no output)"));
            }
            let mut answer = owned(self.collected.as_str());
            answer.append("\n(timeout)\n");
            return Some(answer);
        }
        if self.wait_for.is_none() && !self.collected.as_str().is_empty() && passed(
            self.idle_since,
            now,
            READ_IDLE_MS,
        ) {
            return Some(owned(self.collected.as_str()));
        }
        None
    }

    /// The new output as the reader gets it, `None` where there is none.
    pub open spec fn fresh(self, data: Seq<char>) -> Option<Seq<char>> {
        if data.len() == 0 {
            None
        } else {
            Some(cleaned(data, self.strip_ansi))
        }
    }

    /// One look at a process that is waited for. `data` is its new output. Returns the answer,
    /// or `None` to go on waiting.
    pub fn step(&mut self, data: &str, exited: Option<String>, now: u64) -> (r: Option<String>)
        requires
            old(self).in_time(now),
        ensures
            ({
                let (collected, idle_since) = old(self).after(old(self).fresh(data@), now);
                &&& opt_view(r) == read_outcome(
                    collected,
                    opt_view(old(self).wait_for),
                    old(self).started,
                    old(self).max_wait_ms,
                    idle_since,
                    opt_view(exited),
                    now,
                )
                &&& final(self).idle_since == idle_since
                &&& final(self).collected@ == collected
            }),
            data@.len() > 0 && old(self).strip_ansi ==> keeps_plain(normalized(data@)),
            final(self).in_time(now),
            final(self).started == old(self).started,
            final(self).max_wait_ms == old(self).max_wait_ms,
            final(self).strip_ansi == old(self).strip_ansi,
            final(self).wait_for == old(self).wait_for,
    {
        let fresh: Option<String> = if data.is_empty() {
            None
        } else {
            Some(clean(data, self.strip_ansi))
        };
        self.settle(fresh, exited, now)
    }
}

/// Whether a sender waits for the answer to its input.
pub open spec fn input_waits(args: SendInputArgs) -> bool {
    args.wait == Some(true) || args.await_response_ms is Some || args.wait_for is Some
}

/// What a waiting sender gets at a point in time, or `None` where it goes on waiting.
///
/// `shown` is the output so far as the sender gets it, `silent` says that there is none so far,
/// `fresh` that some came just now, and `idle_since` when the last of it came.
pub open spec fn answer_outcome(
    shown: Seq<char>,
    silent: bool,
    fresh: bool,
    pattern: Option<Seq<char>>,
    started: u64,
    idle_ms: u64,
    idle_since: u64,
    exited: Option<Seq<char>>,
    now: u64,
) -> Option<Seq<char>> {
    if pattern_found(pattern, shown) {
        Some(shown)
    } else if exited is Some {
        Some(shown + exit_suffix(exited))
    } else if has_passed(started, now, WALL_CAP_MS) {
        Some(shown + "\n(30s wall-time cap reached)\n"@)
    } else if !fresh && has_passed(idle_since, now, idle_ms) && (pattern is Some ==> has_passed(
        idle_since,
        now,
        NO_OUTPUT_CAP_MS,
    )) {
        if silent {
            Some("Input sent (no response)"@)
        } else {
            Some(shown)
        }
    } else {
        None
    }
}

/// What a sender does after a look at the process.
pub enum AnswerStep {
    /// It returns that text.
    Return(String),
    /// It goes on waiting, and reports progress where `report` is set.
    Continue { report: bool },
}

impl AnswerStep {
    /// The text that is returned, if any.
    pub open spec fn answer(self) -> Option<Seq<char>> {
        match self {
            AnswerStep::Return(text) => Some(text@),
            AnswerStep::Continue { .. } => None,
        }
    }
}

/// A sender that waits for the answer to its input.
pub struct InputWait {
    /// The output so far, as it came.
    pub collected: String,
    pub wait_for: Option<String>,
    pub started: u64,
    pub idle_ms: u64,
    pub idle_since: u64,
    pub last_progress: u64,
}

impl InputWait {
    /// The clock has not run backwards.
    pub open spec fn in_time(self, now: u64) -> bool {
        self.started <= now && self.idle_since <= now && self.last_progress <= now
    }

    /// The wait that a request asks for, where it asks for one.
    pub fn begin(args: &SendInputArgs, now: u64) -> (r: Option<Self>)
        ensures
            r is Some <==> input_waits(*args),
            r matches Some(w) ==> {
                &&& w.collected@ == Seq::<char>::empty()
                &&& opt_view(w.wait_for) == opt_view(args.wait_for)
                &&& w.started == now
                &&& w.idle_since == now
                &&& w.last_progress == now
                &&& w.idle_ms == match args.await_response_ms {
                    Some(ms) => ms,
                    None => DEFAULT_ANSWER_IDLE_MS,
                }
            },
    {
        let asked: bool = match args.wait {
            Some(w) => w,
            None => false,
        };
        if !asked && args.await_response_ms.is_none() && args.wait_for.is_none() {
            return None;
        }
        let idle_ms: u64 = match args.await_response_ms {
            Some(ms) => ms,
            None => DEFAULT_ANSWER_IDLE_MS,
        };
        let wait_for: Option<String> = match &args.wait_for {
            Some(p) => Some(owned(p.as_str())),
            None => None,
        };
        Some(
            InputWait {
                collected: String::new(),
                wait_for,
                started: now,
                idle_ms,
                idle_since: now,
                last_progress: now,
            },
        )
    }

    /// When the last output came, once `data` has come too.
    pub open spec fn idle_after(self, data: Seq<char>, now: u64) -> u64 {
        if data.len() > 0 {
            now
        } else {
            self.idle_since
        }
    }

    /// One look at a process whose answer is waited for, the new output being collected already.
    /// `shown` is all of the output so far as the sender gets it, and `fresh` says that some of
    /// it came just now.
    pub fn settle(&mut self, shown: String, fresh: bool, exited: Option<String>, now: u64) -> (r:
        AnswerStep)
        requires
            old(self).in_time(now),
        ensures
            r.answer() == answer_outcome(
                shown@,
                old(self).collected@.len() == 0,
                fresh,
                opt_view(old(self).wait_for),
                old(self).started,
                old(self).idle_ms,
                old(self).idle_since,
                opt_view(exited),
                now,
            ),
            r matches AnswerStep::Continue { report } ==> report == has_passed(
                old(self).last_progress,
                now,
                PROGRESS_INTERVAL_MS,
            ),
            final(self).last_progress == match r {
                AnswerStep::Continue { report: true } => now,
                _ => old(self).last_progress,
            },
            final(self).in_time(now),
            final(self).collected == old(self).collected,
            final(self).idle_since == old(self).idle_since,
            final(self).started == old(self).started,
            final(self).idle_ms == old(self).idle_ms,
            final(self).wait_for == old(self).wait_for,
    {
        if found(&self.wait_for, shown.as_str()) {
            return AnswerStep::Return(shown);
        }
        let mut shown = shown;
        if exited.is_some() {
            push_exit(&mut shown, exited);
            return AnswerStep::Return(shown);
        }
        if passed(self.started, now, WALL_CAP_MS) {
            shown.append("\n(30s wall-time cap reached)\n");
            return AnswerStep::Return(shown);
        }
        if !fresh && passed(self.idle_since, now, self.idle_ms) && (self.wait_for.is_none()
            || passed(self.idle_since, now, NO_OUTPUT_CAP_MS)) {
            if self.collected.as_str().is_empty() {
                return AnswerStep::Return(owned("Input sent (no response)"));
            }
            return AnswerStep::Return(shown);
        }
        let report = passed(self.last_progress, now, PROGRESS_INTERVAL_MS);
        if report {
            self.last_progress = now;
        }
        AnswerStep::Continue { report }
    }

    /// One look at a process whose answer is waited for. `data` is its new output.
    pub fn step(&mut self, data: &str, exited: Option<String>, now: u64) -> (r: AnswerStep)
        requires
            old(self).in_time(now),
        ensures
            ({
                let collected = old(self).collected@ + data@;
                &&& final(self).collected@ == collected
                &&& final(self).idle_since == old(self).idle_after(data@, now)
                &&& r.answer() == answer_outcome(
                    cleaned(collected, true),
                    collected.len() == 0,
                    data@.len() > 0,
                    opt_view(old(self).wait_for),
                    old(self).started,
                    old(self).idle_ms,
                    old(self).idle_after(data@, now),
                    opt_view(exited),
                    now,
                )
            }),
            r matches AnswerStep::Continue { report } ==> report == has_passed(
                old(self).last_progress,
                now,
                PROGRESS_INTERVAL_MS,
            ),
            final(self).last_progress == match r {
                AnswerStep::Continue { report: true } => now,
                _ => old(self).last_progress,
            },
            keeps_plain(normalized(old(self).collected@ + data@)),
            final(self).in_time(now),
            final(self).started == old(self).started,
            final(self).idle_ms == old(self).idle_ms,
            final(self).wait_for == old(self).wait_for,
    {
        let fresh = !data.is_empty();
        if fresh {
            self.collected.append(data);
            self.idle_since = now;
        }
        let shown = clean(self.collected.as_str(), true);
        self.settle(shown, fresh, exited, now)
    }
}

/// A waiting read returns as soon as the pattern has appeared or the process has ended, and at
/// its deadline in any case.
pub proof fn law_read_returns_when_due(
    collected: Seq<char>,
    pattern: Option<Seq<char>>,
    started: u64,
    max_wait_ms: u64,
    idle_since: u64,
    exited: Option<Seq<char>>,
    now: u64,
)
    requires
        pattern_found(pattern, collected) || exited is Some || has_passed(started, now, max_wait_ms),
    ensures
        read_outcome(collected, pattern, started, max_wait_ms, idle_since, exited, now) is Some,
{
}

/// A read that waits for a pattern returns for no other reason than the pattern, the end of the
/// process or the deadline.
pub proof fn law_pattern_read_waits(
    collected: Seq<char>,
    pattern: Option<Seq<char>>,
    started: u64,
    max_wait_ms: u64,
    idle_since: u64,
    exited: Option<Seq<char>>,
    now: u64,
)
    requires
        pattern is Some,
        !pattern_found(pattern, collected),
        exited is None,
        !has_passed(started, now, max_wait_ms),
    ensures
        read_outcome(collected, pattern, started, max_wait_ms, idle_since, exited, now) is None,
{
}

/// Whatever a waiting read returns starts with the output it has collected, unless there is
/// none.
pub proof fn law_read_returns_all_output(
    collected: Seq<char>,
    pattern: Option<Seq<char>>,
    started: u64,
    max_wait_ms: u64,
    idle_since: u64,
    exited: Option<Seq<char>>,
    now: u64,
)
    requires
        collected.len() > 0,
    ensures
        read_outcome(collected, pattern, started, max_wait_ms, idle_since, exited, now) matches Some(
            text,
        ) ==> text.take(collected.len() as int) == collected,
{
}

/// No sender waits longer than thirty seconds, and none waits on once the process has ended or
/// the pattern has appeared.
pub proof fn law_answer_is_bounded(
    shown: Seq<char>,
    silent: bool,
    fresh: bool,
    pattern: Option<Seq<char>>,
    started: u64,
    idle_ms: u64,
    idle_since: u64,
    exited: Option<Seq<char>>,
    now: u64,
)
    requires
        pattern_found(pattern, shown) || exited is Some || now - started >= 30_000_000_000,
    ensures
        answer_outcome(
            shown,
            silent,
            fresh,
            pattern,
            started,
            idle_ms,
            idle_since,
            exited,
            now,
        ) is Some,
{
}

/// A sender that waits for a pattern gets its answer after five seconds of silence at the latest
/// where it does not ask for a longer silence, and one that waits for none after the silence it
/// asks for.
pub proof fn law_answer_ends_after_silence(
    shown: Seq<char>,
    silent: bool,
    pattern: Option<Seq<char>>,
    started: u64,
    idle_ms: u64,
    idle_since: u64,
    exited: Option<Seq<char>>,
    now: u64,
)
    requires
        has_passed(idle_since, now, idle_ms),
        pattern is Some ==> now - idle_since >= 5_000_000_000,
    ensures
        answer_outcome(
            shown,
            silent,
            false,
            pattern,
            started,
            idle_ms,
            idle_since,
            exited,
            now,
        ) is Some,
{
}

/// The time that passes is counted in full, however long it is: so many milliseconds have passed
/// exactly where a million times as many nanoseconds lie between the two points.
pub proof fn law_time_is_counted_in_full(since: u64, now: u64, ms: u64)
    ensures
        has_passed(since, now, ms) <==> now - since >= ms * 1_000_000,
{
}

/// The times that the waits go by.
pub proof fn law_waits_keep_their_times()
    ensures
        POLL_INTERVAL_MS == 50,
        DEFAULT_READ_WAIT_MS == 30_000,
        READ_IDLE_MS == 300,
        DEFAULT_ANSWER_IDLE_MS == 1_000,
        NO_OUTPUT_CAP_MS == 5_000,
        WALL_CAP_MS == 30_000,
        PROGRESS_INTERVAL_MS == 1_000,
{
}

/// A read that waits for a pattern goes on until the pattern appears, the process ends or the
/// time that it asked for is over, however long that is.
pub proof fn law_pattern_read_waits_its_full_time(
    collected: Seq<char>,
    pattern: Option<Seq<char>>,
    started: u64,
    max_wait_ms: u64,
    idle_since: u64,
    exited: Option<Seq<char>>,
    now: u64,
)
    requires
        pattern is Some,
    ensures
        read_outcome(collected, pattern, started, max_wait_ms, idle_since, exited, now) is None <==> {
            &&& forall|a: Seq<char>, b: Seq<char>| collected != #[trigger] (a + pattern->0 + b)
            &&& exited is None
            &&& now - started < max_wait_ms * 1_000_000
        },
{
    crate::text::law_contained_text_has_surroundings(collected, pattern->0);
}

/// A read that waits for no pattern goes on until the process ends, the time that it asked for
/// is over, or there is output and none came for 300 milliseconds.
pub proof fn law_plain_read_waits_for_silence(
    collected: Seq<char>,
    started: u64,
    max_wait_ms: u64,
    idle_since: u64,
    exited: Option<Seq<char>>,
    now: u64,
)
    ensures
        read_outcome(collected, None, started, max_wait_ms, idle_since, exited, now) is None <==> {
            &&& exited is None
            &&& now - started < max_wait_ms * 1_000_000
            &&& collected.len() == 0 || now - idle_since < 300_000_000
        },
{
}

/// A read that returns gives all that it has collected, and behind it the notice of the end of
/// the process where it has ended, or else a note on the time where that is what ended the wait.
pub proof fn law_read_says_why_it_returns(
    collected: Seq<char>,
    pattern: Option<Seq<char>>,
    started: u64,
    max_wait_ms: u64,
    idle_since: u64,
    exited: Option<Seq<char>>,
    now: u64,
)
    ensures
        ({
            let r = read_outcome(
                collected,
                pattern,
                started,
                max_wait_ms,
                idle_since,
                exited,
                now,
            );
            let appeared = pattern is Some && contains_text(collected, pattern->0);
            let late = now - started >= max_wait_ms * 1_000_000;
            &&& exited is Some ==> r == Some(collected + "\n"@ + exited->0 + "\n"@)
            &&& exited is None && appeared ==> r == Some(collected)
            &&& exited is None && !appeared && late && collected.len() > 0 ==> r == Some(
                collected + "\n(timeout)\n"@,
            )
            &&& exited is None && !appeared && late && collected.len() == 0 ==> r == Some(
                "(timeout, no output)"@,
            )
            &&& exited is None && !late && r is Some ==> r == Some(collected)
        }),
{
    reveal_strlit("\n");
    assert("\n"@ =~= seq!['\n']);
    if exited is Some {
        assert(collected + exit_suffix(exited) =~= collected + "\n"@ + exited->0 + "\n"@);
    } else {
        assert(collected + exit_suffix(exited) =~= collected);
    }
}

/// A sender that waits for a pattern goes on until the pattern appears, the process ends, thirty
/// seconds are over, or no output came for five seconds and for as long as it asked for. Until
/// then it goes on whether or not any output has come.
pub proof fn law_pattern_sender_waits(
    shown: Seq<char>,
    silent: bool,
    fresh: bool,
    pattern: Option<Seq<char>>,
    started: u64,
    idle_ms: u64,
    idle_since: u64,
    exited: Option<Seq<char>>,
    now: u64,
)
    requires
        pattern is Some,
    ensures
        answer_outcome(
            shown,
            silent,
            fresh,
            pattern,
            started,
            idle_ms,
            idle_since,
            exited,
            now,
        ) is None <==> {
            &&& forall|a: Seq<char>, b: Seq<char>| shown != #[trigger] (a + pattern->0 + b)
            &&& exited is None
            &&& now - started < 30_000_000_000
            &&& fresh || now - idle_since < 5_000_000_000 || now - idle_since < idle_ms * 1_000_000
        },
{
    crate::text::law_contained_text_has_surroundings(shown, pattern->0);
}

/// A sender that waits for no pattern goes on until the process ends, thirty seconds are over,
/// or no output came for as long as it asked for.
pub proof fn law_plain_sender_waits_for_silence(
    shown: Seq<char>,
    silent: bool,
    fresh: bool,
    started: u64,
    idle_ms: u64,
    idle_since: u64,
    exited: Option<Seq<char>>,
    now: u64,
)
    ensures
        answer_outcome(
            shown,
            silent,
            fresh,
            None,
            started,
            idle_ms,
            idle_since,
            exited,
            now,
        ) is None <==> {
            &&& exited is None
            &&& now - started < 30_000_000_000
            &&& fresh || now - idle_since < idle_ms * 1_000_000
        },
{
}

/// A sender that gets an answer gets all of the output, and behind it the notice of the end of
/// the process or a note on the thirty seconds where that is what ended the wait. Where silence
/// ended it and there was no output at all, the answer says so.
pub proof fn law_answer_says_why_it_comes(
    shown: Seq<char>,
    silent: bool,
    fresh: bool,
    pattern: Option<Seq<char>>,
    started: u64,
    idle_ms: u64,
    idle_since: u64,
    exited: Option<Seq<char>>,
    now: u64,
)
    ensures
        ({
            let r = answer_outcome(
                shown,
                silent,
                fresh,
                pattern,
                started,
                idle_ms,
                idle_since,
                exited,
                now,
            );
            let appeared = pattern is Some && contains_text(shown, pattern->0);
            let late = now - started >= 30_000_000_000;
            &&& appeared ==> r == Some(shown)
            &&& !appeared && exited is Some ==> r == Some(shown + "\n"@ + exited->0 + "\n"@)
            &&& !appeared && exited is None && late ==> r == Some(
                shown + "\n(30s wall-time cap reached)\n"@,
            )
            &&& !appeared && exited is None && !late && r is Some ==> r == Some(
                if silent {
                    "Input sent (no response)"@
                } else {
                    shown
                },
            )
        }),
{
    reveal_strlit("\n");
    assert("\n"@ =~= seq!['\n']);
    if exited is Some {
        assert(shown + exit_suffix(exited) =~= shown + "\n"@ + exited->0 + "\n"@);
    }
}

/// A report on a process that has not ended is the output alone; the notice of its end stands on
/// a line of its own behind the output.
pub proof fn law_notice_stands_on_its_own_line(notice: Seq<char>)
    ensures
        exit_suffix(None) == Seq::<char>::empty(),
        exit_suffix(Some(notice)) == "\n"@ + notice + "\n"@,
{
    reveal_strlit("\n");
    assert(exit_suffix(Some(notice)) =~= "\n"@ + notice + "\n"@);
}

/// Output without carriage returns reaches a reader as it is, unless escape sequences are to be
/// removed, which is done to what the reader would get otherwise.
pub proof fn law_cleaning_keeps_the_output(data: Seq<char>)
    ensures
        !data.contains('\r') ==> cleaned(data, false) == data,
        cleaned(data, false) == normalized(data),
        cleaned(data, true) == stripped(cleaned(data, false)),
{
    if !data.contains('\r') {
        crate::pty::law_normalized_keeps_plain_text(data);
    }
}

/// Nothing is found where nothing is waited for, and what is waited for is found exactly where it
/// stands in the output.
pub proof fn law_pattern_is_found_where_it_stands(pattern: Seq<char>, shown: Seq<char>)
    ensures
        !pattern_found(None, shown),
        pattern_found(Some(pattern), shown) <==> exists|a: Seq<char>, b: Seq<char>|
            shown == #[trigger] (a + pattern + b),
{
    crate::text::law_contained_text_has_surroundings(shown, pattern);
}

/// A reader waits where it gives a time or a pattern; a sender also where it says so.
pub proof fn law_waiting_is_asked_for(read: ReadOutputArgs, input: SendInputArgs)
    ensures
        read.timeout_ms is Some ==> read_waits(read),
        read.wait_for is Some ==> read_waits(read),
        read.timeout_ms is None && read.wait_for is None ==> !read_waits(read),
        input.wait == Some(true) ==> input_waits(input),
        input.await_response_ms is Some ==> input_waits(input),
        input.wait_for is Some ==> input_waits(input),
        input.wait != Some(true) && input.await_response_ms is None && input.wait_for is None
            ==> !input_waits(input),
{
}

/// Output that comes is added behind the output so far and starts the silence anew; where none
/// comes, both stay as they are. New output is what a reader gets of it, and an empty text is no
/// output.
pub proof fn law_output_is_collected(
    read: OutputWait,
    input: InputWait,
    data: Seq<char>,
    text: Seq<char>,
    now: u64,
)
    ensures
        read.after(Some(text), now) == (read.collected@ + text, now),
        read.after(None, now) == (read.collected@, read.idle_since),
        read.fresh(Seq::empty()) is None,
        data.len() > 0 ==> read.fresh(data) == Some(
            if read.strip_ansi {
                stripped(normalized(data))
            } else {
                normalized(data)
            },
        ),
        data.len() > 0 ==> input.idle_after(data, now) == now,
        input.idle_after(Seq::empty(), now) == input.idle_since,
        read.in_time(now) <==> read.started <= now && read.idle_since <= now,
        input.in_time(now) <==> input.started <= now && input.idle_since <= now
            && input.last_progress <= now,
{
}

/// A step of a sender that returns gives its text, and one that goes on gives none.
pub proof fn law_step_gives_its_text(text: String, report: bool)
    ensures
        AnswerStep::Return(text).answer() == Some(text@),
        (AnswerStep::Continue { report }).answer() is None,
{
}

} // verus!

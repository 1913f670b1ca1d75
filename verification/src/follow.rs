//! Following log files line by line, for followers that may come back.

use vstd::prelude::*;
use vstd::seq_lib::lemma_flatten_concat;

use crate::ansi::{decode_lossy, keeps_plain, keeps_valid, lossy_decoded};
use crate::log::{
    cut_lines, cut_rest, law_cutting_keeps_every_byte, law_lines_do_not_depend_on_chunks,
};
use crate::reader::tail_at;
use crate::stream::{present, presented, show_line, shown_line, AnsiMode};
use crate::text::{decimal, law_parse_reads_decimal, owned, parse_u64, parsed_u64};

verus! {

/// The number of an optional text, where it is one.
pub open spec fn parsed_opt(s: Option<&str>) -> Option<u64> {
    match s {
        Some(t) => parsed_u64(t@),
        None => None,
    }
}

/// The byte offset at which a follower starts.
pub open spec fn start_offset(last_event_id: Option<&str>, from: Option<&str>) -> u64 {
    match parsed_opt(last_event_id) {
        Some(n) => n,
        None => match parsed_opt(from) {
            Some(n) => n,
            None => 0,
        },
    }
}

/// The number in a `Last-Event-ID` header, where it is one.
pub fn parse_last_event_id(header: Option<&str>) -> (r: Option<u64>)
    ensures
        r == parsed_opt(header),
{
    match header {
        Some(value) => parse_u64(value),
        None => None,
    }
}

/// The byte offset at which a follower starts: behind the last event it got, or else the one
/// that the query asks for, or else the top.
pub fn initial_offset(last_event_id: Option<&str>, from: Option<&str>) -> (r: u64)
    ensures
        r == start_offset(last_event_id, from),
{
    match parse_last_event_id(last_event_id) {
        Some(n) => n,
        None => match from {
            Some(value) => match parse_u64(value) {
                Some(n) => n,
                None => 0,
            },
            None => 0,
        },
    }
}

/// An event for a follower.
pub struct SseEvent {
    /// The byte offset behind the line, from which the follower can go on.
    pub id: Option<u64>,
    /// The kind of the event, where it is not a line.
    pub event: Option<String>,
    pub data: String,
}

impl SseEvent {
    /// Whether this is the event for a line that ends at that byte offset.
    pub open spec fn is_line(self, offset: int, text: Seq<char>) -> bool {
        self.id is Some && self.id->0 == offset && self.event is None && self.data@ == text
    }

    /// Whether this event says that the process has ended.
    pub open spec fn is_done(self) -> bool {
        &&& self.id is None
        &&& self.event is Some
        &&& self.event->0@ == "done"@
        &&& self.data@ == "[process exited]"@
    }
}

/// The complete lines of a log from a byte offset on, each with the line feed that ends it.
pub open spec fn lines_from(log: Seq<u8>, offset: nat) -> Seq<Seq<u8>> {
    cut_lines(tail_at(log, offset))
}

/// How many bytes the first `count` of those lines take.
pub open spec fn bytes_of(lines: Seq<Seq<u8>>, count: int) -> nat {
    lines.take(count).flatten().len()
}

/// A line of a log as a terminal shows it.
pub open spec fn event_text(raw: Seq<u8>) -> Seq<char> {
    shown_line(lossy_decoded(raw.drop_last()))
}

/// Whether `events` are those lines in that mode, the first of which starts at that offset. The
/// id of an event is the offset behind its line.
pub open spec fn are_events(
    events: Seq<SseEvent>,
    lines: Seq<Seq<u8>>,
    offset: nat,
    mode: AnsiMode,
) -> bool {
    &&& events.len() == lines.len()
    &&& forall|i: int|
        0 <= i < lines.len() ==> (#[trigger] events[i]).is_line(
            (offset + bytes_of(lines, i + 1)) as int,
            presented(event_text(lines[i]), mode),
        )
}

/// Whether those lines are presented plainly: valid UTF-8 is decoded as it stands, and plain
/// text is left as it is where escape sequences are removed.
pub open spec fn keeps_lines(lines: Seq<Seq<u8>>, mode: AnsiMode) -> bool {
    forall|i: int|
        0 <= i < lines.len() ==> keeps_valid((#[trigger] lines[i]).drop_last()) && (mode
            == AnsiMode::Strip ==> keeps_plain(event_text(lines[i])))
}

/// Where a follower is once the complete lines of a log were sent.
pub open spec fn offset_after(log: Seq<u8>, offset: nat) -> nat {
    offset + lines_from(log, offset).flatten().len()
}

/// What a follower does next.
#[derive(Clone, Copy, Debug, PartialEq, Eq, Structural)]
pub enum StreamNext {
    /// Look again in a moment.
    Wait,
    /// The process has ended: read the log once more and say so.
    Drain,
    /// Stop.
    End,
}

/// How long a follower waits before it looks again, in milliseconds.
pub const FOLLOW_INTERVAL_MS: u64 = 100;

/// Follows the log of a session line by line.
pub struct LogStream {
    /// Up to which byte of the log the lines were sent.
    pub offset: u64,
    pub mode: AnsiMode,
}

impl LogStream {
    /// A follower that starts at the given byte offset.
    pub fn new(offset: u64, mode: AnsiMode) -> (r: Self)
        ensures
            r.offset == offset,
            r.mode == mode,
    {
        LogStream { offset, mode }
    }

    fn take_lines(&mut self, log: &[u8]) -> (r: Vec<SseEvent>)
        ensures
            final(self).mode == old(self).mode,
            final(self).offset == offset_after(log@, old(self).offset as nat),
            are_events(
                r@,
                lines_from(log@, old(self).offset as nat),
                old(self).offset as nat,
                old(self).mode,
            ),
            keeps_lines(lines_from(log@, old(self).offset as nat), old(self).mode),
    {
        let mode = self.mode;
        let mut events: Vec<SseEvent> = Vec::new();
        if self.offset >= log.len() as u64 {
            assert(tail_at(log@, self.offset as nat) =~= Seq::<u8>::empty());
            return events;
        }
        let start: usize = self.offset as usize;
        let ghost tail = tail_at(log@, start as nat);
        let mut line: Vec<u8> = Vec::new();
        let mut i: usize = start;
        assert(tail.take(0) =~= Seq::<u8>::empty());
        while i < log.len()
            invariant
                start <= i <= log@.len(),
                tail == log@.skip(start as int),
                self.mode == mode,
                line@ == cut_rest(tail.take(i - start)),
                self.offset == start + cut_lines(tail.take(i - start)).flatten().len(),
                are_events(events@, cut_lines(tail.take(i - start)), start as nat, mode),
                keeps_lines(cut_lines(tail.take(i - start)), mode),
            decreases log@.len() - i,
        {
            let ghost before = tail.take(i - start);
            let ghost after = tail.take(i + 1 - start);
            let ghost sent = events@;
            assert(after.drop_last() =~= before);
            let b: u8 = log[i];
            if b == 0x0a {
                let text = decode_lossy(line.as_slice());
                let shown = show_line(text.as_str());
                let data = present(shown, mode);
                self.offset = i as u64 + 1;
                events.push(SseEvent { id: Some(self.offset), event: None, data });
                proof {
                    let lines = cut_lines(after);
                    law_cutting_keeps_every_byte(after);
                    assert(cut_rest(after).len() == 0);
                    assert(lines.flatten() + cut_rest(after) =~= lines.flatten());
                    assert(lines.drop_last() =~= cut_lines(before));
                    assert(lines.last().drop_last() =~= line@);
                    assert(lines.take(lines.len() as int) =~= lines);
                    assert forall|k: int| 0 <= k < lines.len() implies (
                    #[trigger] events@[k]).is_line(
                        (start + bytes_of(lines, k + 1)) as int,
                        presented(event_text(lines[k]), mode),
                    ) by {
                        if k < sent.len() {
                            assert(events@[k] == sent[k]);
                            assert(lines.take(k + 1) =~= cut_lines(before).take(k + 1));
                        }
                    }
                }
                line = Vec::new();
            } else {
                line.push(b);
            }
            i += 1;
        }
        assert(tail.take(i - start) =~= tail);
        events
    }

    /// Looks at the log once. `running` says whether the process runs, and is `None` where the
    /// session is gone; `content` is the log file, where it could be read.
    pub fn poll(&mut self, running: Option<bool>, content: Option<&[u8]>) -> (r: (
        Vec<SseEvent>,
        StreamNext,
    ))
        ensures
            final(self).mode == old(self).mode,
            match (running, content) {
                (Some(alive), Some(log)) => {
                    let offset = old(self).offset as nat;
                    &&& are_events(r.0@, lines_from(log@, offset), offset, old(self).mode)
                    &&& keeps_lines(lines_from(log@, offset), old(self).mode)
                    &&& final(self).offset == offset_after(log@, offset)
                    &&& r.1 == if alive {
                        StreamNext::Wait
                    } else {
                        StreamNext::Drain
                    }
                },
                _ => {
                    &&& r.0@.len() == 0
                    &&& final(self).offset == old(self).offset
                    &&& r.1 == StreamNext::End
                },
            },
    {
        match (running, content) {
            (Some(alive), Some(log)) => {
                let events = self.take_lines(log);
                let next = if alive {
                    StreamNext::Wait
                } else {
                    StreamNext::Drain
                };
                (events, next)
            },
            _ => (Vec::new(), StreamNext::End),
        }
    }

    /// Looks at the log a last time, after the process has ended: the lines that came in
    /// between, where the log can be read, and then the event that says so.
    pub fn drain(&mut self, content: Option<&[u8]>) -> (r: Vec<SseEvent>)
        ensures
            final(self).mode == old(self).mode,
            r@.len() >= 1,
            r@.last().is_done(),
            match content {
                Some(log) => {
                    let offset = old(self).offset as nat;
                    &&& are_events(
                        r@.drop_last(),
                        lines_from(log@, offset),
                        offset,
                        old(self).mode,
                    )
                    &&& keeps_lines(lines_from(log@, offset), old(self).mode)
                    &&& final(self).offset == offset_after(log@, offset)
                },
                None => r@.len() == 1 && final(self).offset == old(self).offset,
            },
    {
        let mut events: Vec<SseEvent> = match content {
            Some(log) => self.take_lines(log),
            None => Vec::new(),
        };
        let ghost sent = events@;
        events.push(
            SseEvent { id: None, event: Some(owned("done")), data: owned("[process exited]") },
        );
        assert(events@.drop_last() =~= sent);
        events
    }
}

/// The first lines of a log take up a part of it that ends behind a line feed and holds just
/// those lines.
proof fn lemma_lines_are_a_prefix(bytes: Seq<u8>, count: int)
    requires
        0 <= count <= cut_lines(bytes).len(),
    ensures
        bytes_of(cut_lines(bytes), count) <= bytes.len(),
        cut_lines(bytes.take(bytes_of(cut_lines(bytes), count) as int)) == cut_lines(bytes).take(
            count,
        ),
        cut_rest(bytes.take(bytes_of(cut_lines(bytes), count) as int)).len() == 0,
        count > 0 ==> bytes_of(cut_lines(bytes), count) > 0
            && bytes[bytes_of(cut_lines(bytes), count) - 1] == 0x0a,
    decreases bytes.len(),
{
    let lines = cut_lines(bytes);
    let n = bytes_of(lines, count) as int;
    if count == 0 {
        assert(lines.take(0) =~= Seq::<Seq<u8>>::empty());
        assert(bytes.take(0) =~= Seq::<u8>::empty());
    } else if bytes.last() == 0x0a && count == lines.len() {
        law_cutting_keeps_every_byte(bytes);
        assert(lines.take(count) =~= lines);
        assert(lines.flatten() + cut_rest(bytes) =~= lines.flatten());
        assert(bytes.take(n) =~= bytes);
    } else {
        let shorter = bytes.drop_last();
        assert(lines.take(count) =~= cut_lines(shorter).take(count));
        lemma_lines_are_a_prefix(shorter, count);
        assert(shorter.take(n) =~= bytes.take(n));
    }
}

proof fn lemma_two_looks(log: Seq<u8>, more: Seq<u8>, offset: nat)
    ensures
        lines_from(log + more, offset) == lines_from(log, offset) + lines_from(
            log + more,
            offset_after(log, offset),
        ),
{
    let first = lines_from(log, offset);
    let second = lines_from(log + more, offset_after(log, offset));
    let tail = tail_at(log, offset);
    if offset <= log.len() {
        law_cutting_keeps_every_byte(tail);
        law_lines_do_not_depend_on_chunks(tail, more);
        assert(tail_at(log + more, offset) =~= tail + more);
        assert(cut_rest(tail) =~= tail.skip(first.flatten().len() as int));
        assert(tail_at(log + more, offset_after(log, offset)) =~= cut_rest(tail) + more);
    } else {
        assert(first.flatten() =~= Seq::<u8>::empty());
        assert(first + second =~= second);
    }
}

/// A follower of a growing log gets each line once and in order: what two looks at it send is
/// what one look at the end would have sent, with the same ids, and they lead to the same
/// offset.
pub proof fn law_follower_gets_each_line_once(log: Seq<u8>, more: Seq<u8>, offset: nat)
    ensures
        lines_from(log + more, offset) == lines_from(log, offset) + lines_from(
            log + more,
            offset_after(log, offset),
        ),
        forall|i: int|
            0 <= i <= lines_from(log + more, offset_after(log, offset)).len() ==> offset
                + #[trigger] bytes_of(
                lines_from(log + more, offset),
                lines_from(log, offset).len() + i,
            ) == offset_after(log, offset) + bytes_of(
                lines_from(log + more, offset_after(log, offset)),
                i,
            ),
        offset_after(log + more, offset) == offset_after(log + more, offset_after(log, offset)),
{
    let first = lines_from(log, offset);
    let second = lines_from(log + more, offset_after(log, offset));
    lemma_two_looks(log, more, offset);
    assert forall|i: int| 0 <= i <= second.len() implies offset + #[trigger] bytes_of(
        lines_from(log + more, offset),
        first.len() + i,
    ) == offset_after(log, offset) + bytes_of(second, i) by {
        assert((first + second).take(first.len() + i) =~= first + second.take(i));
        lemma_flatten_concat(first, second.take(i));
    }
    lemma_flatten_concat(first, second);
}

/// A follower that comes back with the id of the last event it got goes on right behind that
/// line: it gets the lines that are left, all of them and no others.
pub proof fn law_follower_resumes_after_last_event(
    log: Seq<u8>,
    offset: nat,
    last: int,
    id: u64,
    header: &str,
    from: Option<&str>,
)
    requires
        0 <= last < lines_from(log, offset).len(),
        id == offset + bytes_of(lines_from(log, offset), last + 1),
        header@ == decimal(id as nat),
    ensures
        start_offset(Some(header), from) == id,
        lines_from(log, id as nat) == lines_from(log, offset).skip(last + 1),
        0 < id <= log.len(),
        log[id - 1] == 0x0a,
{
    law_parse_reads_decimal(id);
    let tail = tail_at(log, offset);
    let lines = lines_from(log, offset);
    let n = bytes_of(lines, last + 1) as int;
    lemma_lines_are_a_prefix(tail, last + 1);
    law_lines_do_not_depend_on_chunks(tail.take(n), tail.skip(n));
    assert(tail.take(n) + tail.skip(n) =~= tail);
    assert(cut_rest(tail.take(n)) + tail.skip(n) =~= tail.skip(n));
    assert(tail_at(log, id as nat) =~= tail.skip(n));
    assert(lines =~= lines.take(last + 1) + cut_lines(tail.skip(n)));
    assert(lines.skip(last + 1) =~= cut_lines(tail.skip(n)));
}

/// Each event is a line of the log: its line starts where that of the event before it ended, or
/// at the offset where it is the first, and ends behind the next line feed, which is where its id
/// points. Its data is that line as a terminal shows it, in the mode of the follower.
pub proof fn law_event_is_a_line_of_the_log(
    events: Seq<SseEvent>,
    log: Seq<u8>,
    offset: nat,
    mode: AnsiMode,
    i: int,
)
    requires
        are_events(events, lines_from(log, offset), offset, mode),
        0 <= i < events.len(),
    ensures
        events[i].id is Some,
        events[i].event is None,
        i > 0 ==> events[i - 1].id is Some,
        ({
            let start = if i == 0 {
                offset as int
            } else {
                events[i - 1].id->0 as int
            };
            let end = events[i].id->0 as int;
            let line = log.subrange(start, end - 1);
            &&& offset <= start < end <= log.len()
            &&& log[end - 1] == 0x0a
            &&& !line.contains(0x0a)
            &&& events[i].data@ == presented(shown_line(lossy_decoded(line)), mode)
            &&& mode == AnsiMode::Raw && !lossy_decoded(line).contains('\r') ==> events[i].data@
                == lossy_decoded(line)
        }),
{
    let tail = tail_at(log, offset);
    let lines = lines_from(log, offset);
    assert(events[i].is_line(
        (offset + bytes_of(lines, i + 1)) as int,
        presented(event_text(lines[i]), mode),
    ));
    if i > 0 {
        assert(events[i - 1].is_line(
            (offset + bytes_of(lines, i)) as int,
            presented(event_text(lines[i - 1]), mode),
        ));
    } else {
        assert(lines.take(0) =~= Seq::<Seq<u8>>::empty());
    }
    law_cutting_keeps_every_byte(tail);
    let before = lines.take(i).flatten();
    let raw = lines[i];
    assert(lines.take(i + 1) =~= lines.take(i).push(raw));
    lines.take(i).lemma_flatten_push(raw);
    assert(lines =~= lines.take(i + 1) + lines.skip(i + 1));
    lemma_flatten_concat(lines.take(i + 1), lines.skip(i + 1));
    let n = before.len() as int;
    lemma_line_is_not_empty(tail, i);
    assert(raw =~= tail.subrange(n, n + raw.len()));
    assert(offset <= log.len());
    assert(raw =~= log.subrange(offset + n, offset + n + raw.len()));
    crate::log::law_line_holds_one_line_feed(tail, i, raw.len() - 1);
    assert(log[offset + n + raw.len() - 1] == raw[raw.len() - 1]);
    let line = log.subrange(offset + n, offset + n + raw.len() - 1);
    assert(raw.drop_last() =~= line);
    assert forall|k: int| 0 <= k < line.len() implies line[k] != 0x0a by {
        crate::log::law_line_holds_one_line_feed(tail, i, k);
        assert(line[k] == raw[k]);
    }
    if !lossy_decoded(line).contains('\r') {
        crate::stream::law_plain_line_is_shown_whole(lossy_decoded(line));
    }
}

proof fn lemma_line_is_not_empty(bytes: Seq<u8>, i: int)
    requires
        0 <= i < cut_lines(bytes).len(),
    ensures
        cut_lines(bytes)[i].len() > 0,
    decreases bytes.len(),
{
    if !(bytes.last() == 0x0a && i == cut_lines(bytes.drop_last()).len()) {
        lemma_line_is_not_empty(bytes.drop_last(), i);
    }
}

/// A follower has got all complete lines: it stands behind the last event, or where it was if
/// there is none, and no line feed follows there.
pub proof fn law_no_complete_line_is_left(
    events: Seq<SseEvent>,
    log: Seq<u8>,
    offset: nat,
    mode: AnsiMode,
)
    requires
        are_events(events, lines_from(log, offset), offset, mode),
    ensures
        events.len() > 0 ==> events.last().id is Some && offset_after(log, offset)
            == events.last().id->0,
        events.len() == 0 ==> offset_after(log, offset) == offset,
        forall|k: int| offset_after(log, offset) <= k < log.len() ==> #[trigger] log[k] != 0x0a,
{
    let tail = tail_at(log, offset);
    let lines = lines_from(log, offset);
    let n = lines.flatten().len();
    law_cutting_keeps_every_byte(tail);
    crate::log::law_rest_holds_no_line_feed(tail);
    if events.len() > 0 {
        let last = events.len() - 1;
        assert(events[last].is_line(
            (offset + bytes_of(lines, last + 1)) as int,
            presented(event_text(lines[last]), mode),
        ));
        assert(lines.take(last + 1) =~= lines);
    } else {
        assert(lines =~= Seq::<Seq<u8>>::empty());
    }
    assert forall|k: int| offset + n <= k < log.len() implies #[trigger] log[k] != 0x0a by {
        let rest = cut_rest(tail);
        let j = k - offset - n;
        assert(tail[k - offset] == log[k]);
        assert((lines.flatten() + rest)[k - offset] == rest[j]);
        assert(rest.contains(rest[j]));
    }
}

/// A follower starts where its header says, or else where its query says, or else at the top. A
/// text that is no number counts as if it were not there.
pub proof fn law_header_goes_before_query(header: Option<&str>, query: Option<&str>)
    ensures
        ({
            let resumed = header is Some && parsed_u64(header->0@) is Some;
            let asked = query is Some && parsed_u64(query->0@) is Some;
            &&& resumed ==> start_offset(header, query) == parsed_u64(header->0@)->0
            &&& !resumed && asked ==> start_offset(header, query) == parsed_u64(query->0@)->0
            &&& !resumed && !asked ==> start_offset(header, query) == 0
            &&& !resumed ==> parsed_opt(header) is None
            &&& resumed ==> parsed_opt(header) == parsed_u64(header->0@)
        }),
{
}

/// The last event has no id, is named `done` and says that the process has exited. A line has its
/// offset as id, no name and its text as data.
pub proof fn law_last_event_is_named(event: SseEvent, offset: int, text: Seq<char>)
    ensures
        event.is_done() ==> {
            &&& event.id is None
            &&& event.event is Some
            &&& event.event->0@ == "done"@
            &&& event.data@ == "[process exited]"@
        },
        event.is_line(offset, text) ==> {
            &&& event.id is Some
            &&& event.id->0 == offset
            &&& event.event is None
            &&& event.data@ == text
        },
        FOLLOW_INTERVAL_MS == 100,
{
}

/// Where lines are kept, a line of plain text in valid UTF-8 is sent as it is, raw or stripped.
pub proof fn law_kept_line_is_sent_as_it_is(
    lines: Seq<Seq<u8>>,
    mode: AnsiMode,
    i: int,
    text: Seq<char>,
)
    requires
        keeps_lines(lines, mode),
        mode != AnsiMode::Html,
        0 <= i < lines.len(),
        lines[i] == vstd::utf8::encode_utf8(text).push(0x0a),
        !text.contains('\r'),
        crate::ansi::is_plain(text),
    ensures
        presented(event_text(lines[i]), mode) == text,
{
    assert(lines[i].drop_last() =~= vstd::utf8::encode_utf8(text));
    crate::ansi::law_valid_text_survives(text, lines[i]);
    crate::stream::law_plain_line_is_shown_whole(text);
}

} // verus!

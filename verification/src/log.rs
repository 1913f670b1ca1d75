//! Process output as log messages, one per line.

use vstd::prelude::*;

use crate::ansi::{
    decode_lossy, keeps_plain, keeps_valid, lossy_decoded, strip_ansi, stripped,
};
use crate::protocol::{level_rank, level_value, LoggingLevel};
use crate::pty::{normalize_pty_output, normalized};
use crate::text::{owned, trim_end, trimmed_end};

verus! {

/// Where the lines of a stream are logged, and how severe they are.
pub struct LogTarget {
    pub logger: String,
    pub level: LoggingLevel,
}

/// A message for the client's log.
pub struct LoggingMessage {
    pub level: LoggingLevel,
    pub logger: String,
    pub data: String,
}

impl LoggingMessage {
    /// Whether this is the message with that text for that target.
    pub open spec fn is(self, target: LogTarget, text: Seq<char>) -> bool {
        &&& self.level == target.level
        &&& self.logger@ == target.logger@
        &&& self.data@ == text
    }
}

/// Whether a message of that level is sent to a client that asked for `min` and above.
pub open spec fn passes(level: LoggingLevel, min: LoggingLevel) -> bool {
    level_rank(level) >= level_rank(min)
}

/// The message with that text, unless its level is below the one that the client asked for.
pub fn log_message(level: LoggingLevel, logger: &str, data: String, min: LoggingLevel) -> (r: Option<
    LoggingMessage,
>)
    ensures
        r is Some <==> passes(level, min),
        r matches Some(m) ==> m.level == level && m.logger@ == logger@ && m.data@ == data@,
{
    if level_value(level) < level_value(min) {
        None
    } else {
        Some(LoggingMessage { level, logger: owned(logger), data })
    }
}

/// The complete lines of `bytes`, each with the line feed that ends it.
pub open spec fn cut_lines(bytes: Seq<u8>) -> Seq<Seq<u8>>
    decreases bytes.len(),
{
    if bytes.len() == 0 {
        Seq::empty()
    } else if bytes.last() == 0x0a {
        cut_lines(bytes.drop_last()).push(cut_rest(bytes.drop_last()).push(0x0a))
    } else {
        cut_lines(bytes.drop_last())
    }
}

/// What follows the last complete line of `bytes`.
pub open spec fn cut_rest(bytes: Seq<u8>) -> Seq<u8>
    decreases bytes.len(),
{
    if bytes.len() == 0 || bytes.last() == 0x0a {
        Seq::empty()
    } else {
        cut_rest(bytes.drop_last()).push(bytes.last())
    }
}

/// The text of a logged line: decoded, trimmed at its end, and with terminal control removed.
/// A line that is blank is not logged.
pub open spec fn line_text(raw: Seq<u8>) -> Option<Seq<char>> {
    let line = trimmed_end(lossy_decoded(raw));
    if line.len() == 0 {
        None
    } else {
        Some(stripped(normalized(line)))
    }
}

/// Whether a line is logged plainly: valid UTF-8 is decoded as it stands, and plain text is left
/// as it is.
pub open spec fn keeps_line(raw: Seq<u8>) -> bool {
    &&& keeps_valid(raw)
    &&& line_text(raw) is Some ==> keeps_plain(normalized(trimmed_end(lossy_decoded(raw))))
}

/// Whether all of those lines are logged plainly.
pub open spec fn keeps_lines(lines: Seq<Seq<u8>>) -> bool {
    forall|i: int| 0 <= i < lines.len() ==> keeps_line(#[trigger] lines[i])
}

/// The texts of the lines that are logged.
pub open spec fn line_texts(lines: Seq<Seq<u8>>) -> Seq<Seq<char>>
    decreases lines.len(),
{
    if lines.len() == 0 {
        Seq::empty()
    } else {
        match line_text(lines.last()) {
            Some(text) => line_texts(lines.drop_last()).push(text),
            None => line_texts(lines.drop_last()),
        }
    }
}

/// The lines that a flush takes out of the buffer.
pub open spec fn flushed_lines(buf: Seq<u8>, flush_all: bool) -> Seq<Seq<u8>> {
    if flush_all && cut_rest(buf).len() > 0 {
        cut_lines(buf).push(cut_rest(buf))
    } else {
        cut_lines(buf)
    }
}

/// What a flush leaves in the buffer.
pub open spec fn left_after_flush(buf: Seq<u8>, flush_all: bool) -> Seq<u8> {
    if flush_all {
        Seq::empty()
    } else {
        cut_rest(buf)
    }
}

/// The texts that a flush logs for that target.
pub open spec fn flushed_texts(
    buf: Seq<u8>,
    target: LogTarget,
    min: LoggingLevel,
    flush_all: bool,
) -> Seq<Seq<char>> {
    if passes(target.level, min) {
        line_texts(flushed_lines(buf, flush_all))
    } else {
        Seq::empty()
    }
}

/// Whether `messages` are those texts for that target, in that order.
pub open spec fn are_messages(
    messages: Seq<LoggingMessage>,
    target: LogTarget,
    texts: Seq<Seq<char>>,
) -> bool {
    &&& messages.len() == texts.len()
    &&& forall|i: int| 0 <= i < texts.len() ==> (#[trigger] messages[i]).is(target, texts[i])
}

/// The part of a line that is logged, or `None` for a blank line.
pub fn log_line(raw: &[u8]) -> (r: Option<String>)
    ensures
        match r {
            Some(text) => line_text(raw@) == Some(text@),
            None => line_text(raw@) is None,
        },
        keeps_line(raw@),
{
    let decoded = decode_lossy(raw);
    let line = trim_end(decoded.as_str());
    if line.as_str().is_empty() {
        return None;
    }
    let shown = normalize_pty_output(line.as_str());
    Some(strip_ansi(shown.as_str()))
}

fn push_line(
    messages: &mut Vec<LoggingMessage>,
    raw: &Vec<u8>,
    target: &LogTarget,
    min: LoggingLevel,
    Ghost(lines): Ghost<Seq<Seq<u8>>>,
)
    requires
        passes(target.level, min) ==> are_messages(old(messages)@, *target, line_texts(lines)),
        !passes(target.level, min) ==> old(messages)@.len() == 0,
    ensures
        passes(target.level, min) ==> are_messages(
            final(messages)@,
            *target,
            line_texts(lines.push(raw@)),
        ),
        !passes(target.level, min) ==> final(messages)@.len() == 0,
        keeps_line(raw@),
{
    assert(lines.push(raw@).drop_last() =~= lines);
    match log_line(raw.as_slice()) {
        Some(text) => {
            match log_message(target.level, target.logger.as_str(), text, min) {
                Some(message) => {
                    messages.push(message);
                },
                None => {},
            }
        },
        None => {},
    }
}

/// Takes the complete lines out of `line_buf` and turns them into log messages; with `flush_all`
/// the unfinished last line too. Blank lines are skipped. Without a target nothing is logged.
pub fn flush_lines(
    line_buf: &mut Vec<u8>,
    log: &Option<LogTarget>,
    min_level: LoggingLevel,
    flush_all: bool,
) -> (r: Vec<LoggingMessage>)
    ensures
        match *log {
            Some(target) => {
                &&& final(line_buf)@ == left_after_flush(old(line_buf)@, flush_all)
                &&& are_messages(
                    r@,
                    target,
                    flushed_texts(old(line_buf)@, target, min_level, flush_all),
                )
                &&& keeps_lines(flushed_lines(old(line_buf)@, flush_all))
            },
            None => {
                &&& r@.len() == 0
                &&& final(line_buf)@ == if flush_all {
                    Seq::empty()
                } else {
                    old(line_buf)@
                }
            },
        },
{
    let mut messages: Vec<LoggingMessage> = Vec::new();
    match log {
        None => {
            if flush_all {
                line_buf.clear();
            }
        },
        Some(target) => {
            let ghost all = line_buf@;
            let mut line: Vec<u8> = Vec::new();
            let mut i: usize = 0;
            while i < line_buf.len()
                invariant
                    line_buf@ == all,
                    i <= all.len(),
                    line@ == cut_rest(all.take(i as int)),
                    passes(target.level, min_level) ==> are_messages(
                        messages@,
                        *target,
                        line_texts(cut_lines(all.take(i as int))),
                    ),
                    !passes(target.level, min_level) ==> messages@.len() == 0,
                    keeps_lines(cut_lines(all.take(i as int))),
                decreases all.len() - i,
            {
                assert(all.take(i + 1).drop_last() =~= all.take(i as int));
                let b: u8 = line_buf[i];
                line.push(b);
                if b == 0x0a {
                    push_line(
                        &mut messages,
                        &line,
                        target,
                        min_level,
                        Ghost(cut_lines(all.take(i as int))),
                    );
                    line = Vec::new();
                }
                i += 1;
            }
            assert(all.take(i as int) =~= all);
            if flush_all {
                if line.len() > 0 {
                    push_line(&mut messages, &line, target, min_level, Ghost(cut_lines(all)));
                }
                line_buf.clear();
            } else {
                *line_buf = line;
            }
        },
    }
    messages
}

/// Where a line is cut does not depend on how the stream was cut into chunks: a chunk may be cut
/// by itself and its rest put in front of the next one.
pub proof fn law_lines_do_not_depend_on_chunks(a: Seq<u8>, b: Seq<u8>)
    ensures
        cut_lines(a + b) == cut_lines(a) + cut_lines(cut_rest(a) + b),
        cut_rest(a + b) == cut_rest(cut_rest(a) + b),
    decreases b.len(),
{
    if b.len() == 0 {
        lemma_rest_has_no_line(a);
    } else {
        law_lines_do_not_depend_on_chunks(a, b.drop_last());
        assert((a + b).drop_last() =~= a + b.drop_last());
        assert((cut_rest(a) + b).drop_last() =~= cut_rest(a) + b.drop_last());
    }
}

proof fn lemma_rest_has_no_line(a: Seq<u8>)
    ensures
        cut_lines(cut_rest(a)) == Seq::<Seq<u8>>::empty(),
        cut_rest(cut_rest(a)) == cut_rest(a),
    decreases a.len(),
{
    if a.len() > 0 && a.last() != 0x0a {
        lemma_rest_has_no_line(a.drop_last());
        assert(cut_rest(a).drop_last() =~= cut_rest(a.drop_last()));
    }
}

proof fn lemma_line_texts_concat(a: Seq<Seq<u8>>, b: Seq<Seq<u8>>)
    ensures
        line_texts(a + b) == line_texts(a) + line_texts(b),
    decreases b.len(),
{
    if b.len() > 0 {
        assert((a + b).drop_last() =~= a + b.drop_last());
        lemma_line_texts_concat(a, b.drop_last());
    }
}

/// What is logged of a stream does not depend on how it was cut into chunks: the texts of a
/// first chunk and then those of its rest with the next chunk are the texts of both chunks at
/// once, at the end of the stream too.
pub proof fn law_logged_texts_do_not_depend_on_chunks(a: Seq<u8>, b: Seq<u8>, flush_all: bool)
    ensures
        line_texts(flushed_lines(a + b, flush_all)) == line_texts(flushed_lines(a, false))
            + line_texts(flushed_lines(left_after_flush(a, false) + b, flush_all)),
        left_after_flush(a + b, flush_all) == left_after_flush(
            left_after_flush(a, false) + b,
            flush_all,
        ),
{
    law_lines_do_not_depend_on_chunks(a, b);
    let second = flushed_lines(cut_rest(a) + b, flush_all);
    lemma_line_texts_concat(cut_lines(a), second);
}

/// No byte is lost or added: the lines, one after the other, and the rest are the bytes.
pub proof fn law_cutting_keeps_every_byte(bytes: Seq<u8>)
    ensures
        cut_lines(bytes).flatten() + cut_rest(bytes) == bytes,
    decreases bytes.len(),
{
    if bytes.len() > 0 {
        let before = bytes.drop_last();
        law_cutting_keeps_every_byte(before);
        if bytes.last() == 0x0a {
            let line = cut_rest(before).push(0x0a);
            cut_lines(before).lemma_flatten_push(line);
        }
        assert(bytes =~= (cut_lines(before).flatten() + cut_rest(before)).push(bytes.last()));
    }
}

/// The lines of a stream that is logged, while it arrives in chunks.
pub struct LogPipe {
    line_buf: Vec<u8>,
    log: Option<LogTarget>,
}

impl LogPipe {
    /// The bytes of the unfinished last line.
    pub closed spec fn pending(self) -> Seq<u8> {
        self.line_buf@
    }

    /// Where the lines go.
    pub closed spec fn target(self) -> Option<LogTarget> {
        self.log
    }

    /// A stream of which nothing has arrived yet.
    pub fn new(log: Option<LogTarget>) -> (r: Self)
        ensures
            r.pending() == Seq::<u8>::empty(),
            r.target() == log,
    {
        LogPipe { line_buf: Vec::new(), log }
    }

    /// A chunk has arrived. Returns the messages for the lines that it completes.
    pub fn chunk(&mut self, data: &[u8], min_level: LoggingLevel) -> (r: Vec<LoggingMessage>)
        ensures
            final(self).target() == old(self).target(),
            match old(self).target() {
                Some(target) => {
                    let buf = old(self).pending() + data@;
                    &&& final(self).pending() == cut_rest(buf)
                    &&& are_messages(r@, target, flushed_texts(buf, target, min_level, false))
                    &&& keeps_lines(flushed_lines(buf, false))
                },
                None => r@.len() == 0 && final(self).pending() == old(self).pending(),
            },
    {
        if self.log.is_some() {
            self.line_buf.extend_from_slice(data);
            assert(self.line_buf@ =~= old(self).line_buf@ + data@);
            flush_lines(&mut self.line_buf, &self.log, min_level, false)
        } else {
            Vec::new()
        }
    }

    /// The stream has ended. Returns the message for its unfinished last line.
    pub fn eof(&mut self, min_level: LoggingLevel) -> (r: Vec<LoggingMessage>)
        ensures
            final(self).target() == old(self).target(),
            final(self).pending() == Seq::<u8>::empty(),
            match old(self).target() {
                Some(target) => {
                    &&& are_messages(
                        r@,
                        target,
                        flushed_texts(old(self).pending(), target, min_level, true),
                    )
                    &&& keeps_lines(flushed_lines(old(self).pending(), true))
                },
                None => r@.len() == 0,
            },
    {
        flush_lines(&mut self.line_buf, &self.log, min_level, true)
    }
}

/// A message reaches the client exactly where its level is at least as severe as the one that the
/// client asked for.
pub proof fn law_messages_pass_by_severity(i: int, j: int)
    requires
        0 <= i < 8,
        0 <= j < 8,
    ensures
        ({
            let levels = seq![
                LoggingLevel::Debug,
                LoggingLevel::Info,
                LoggingLevel::Notice,
                LoggingLevel::Warning,
                LoggingLevel::Error,
                LoggingLevel::Critical,
                LoggingLevel::Alert,
                LoggingLevel::Emergency,
            ];
            passes(levels[i], levels[j]) <==> i >= j
        }),
{
    crate::protocol::law_levels_rank_in_order(i);
    crate::protocol::law_levels_rank_in_order(j);
}

/// A line feed ends a line, which keeps it; bytes without one are no line yet and are what is
/// left.
pub proof fn law_lines_are_cut_behind_line_feeds(line: Seq<u8>, rest: Seq<u8>)
    requires
        !line.contains(0x0a),
    ensures
        cut_lines(line) == Seq::<Seq<u8>>::empty(),
        cut_rest(line) == line,
        cut_lines(line.push(0x0a) + rest) == seq![line.push(0x0a)] + cut_lines(rest),
        cut_rest(line.push(0x0a) + rest) == cut_rest(rest),
{
    lemma_no_line(line);
    let first = line.push(0x0a);
    assert(first.drop_last() =~= line);
    assert(cut_lines(first) =~= seq![first]);
    law_lines_do_not_depend_on_chunks(first, rest);
    assert(cut_rest(first) + rest =~= rest);
}

proof fn lemma_no_line(line: Seq<u8>)
    requires
        !line.contains(0x0a),
    ensures
        cut_lines(line) == Seq::<Seq<u8>>::empty(),
        cut_rest(line) == line,
    decreases line.len(),
{
    if line.len() > 0 {
        assert(line.contains(line.last()));
        assert(!line.drop_last().contains(0x0a)) by {
            assert forall|i: int| 0 <= i < line.drop_last().len() implies line.drop_last()[i]
                != 0x0a by {
                assert(line.contains(line[i]));
            }
        }
        lemma_no_line(line.drop_last());
        assert(line.drop_last().push(line.last()) =~= line);
    } else {
        assert(line =~= Seq::empty());
    }
}

/// Each line ends in a line feed and holds no other, and what is left holds none.
pub proof fn law_line_holds_one_line_feed(bytes: Seq<u8>, i: int, k: int)
    requires
        0 <= i < cut_lines(bytes).len(),
        0 <= k < cut_lines(bytes)[i].len(),
    ensures
        cut_lines(bytes)[i][k] == 0x0a <==> k == cut_lines(bytes)[i].len() - 1,
    decreases bytes.len(),
{
    if bytes.last() == 0x0a && i == cut_lines(bytes.drop_last()).len() {
        law_rest_holds_no_line_feed(bytes.drop_last());
        let rest = cut_rest(bytes.drop_last());
        if k < rest.len() {
            assert(rest.contains(rest[k]));
        }
    } else {
        law_line_holds_one_line_feed(bytes.drop_last(), i, k);
    }
}

/// What is left behind the last line holds no line feed.
pub proof fn law_rest_holds_no_line_feed(bytes: Seq<u8>)
    ensures
        !cut_rest(bytes).contains(0x0a),
    decreases bytes.len(),
{
    if bytes.len() > 0 && bytes.last() != 0x0a {
        law_rest_holds_no_line_feed(bytes.drop_last());
        let rest = cut_rest(bytes);
        let before = cut_rest(bytes.drop_last());
        assert forall|i: int| 0 <= i < rest.len() implies rest[i] != 0x0a by {
            if i < before.len() {
                assert(before.contains(before[i]));
            }
        }
    }
}

/// A flush takes the complete lines and leaves the rest for later; a flush of all takes every
/// byte and leaves none. Nothing is lost and nothing is added.
pub proof fn law_flush_keeps_every_byte(buf: Seq<u8>)
    ensures
        flushed_lines(buf, false).flatten() + left_after_flush(buf, false) == buf,
        flushed_lines(buf, true).flatten() == buf,
        left_after_flush(buf, true) == Seq::<u8>::empty(),
        !left_after_flush(buf, false).contains(0x0a),
        flushed_lines(buf, false) == cut_lines(buf),
        flushed_lines(buf, true).len() == cut_lines(buf).len() + if buf.len() > 0 && buf.last()
            != 0x0a {
            1nat
        } else {
            0
        },
{
    law_cutting_keeps_every_byte(buf);
    law_rest_holds_no_line_feed(buf);
    let rest = cut_rest(buf);
    if rest.len() > 0 {
        let last = seq![rest];
        vstd::seq_lib::lemma_flatten_concat(cut_lines(buf), last);
        assert(cut_lines(buf).push(rest) =~= cut_lines(buf) + last);
        last.lemma_flatten_one_element();
        assert(last.flatten() == rest);
    } else {
        assert(cut_lines(buf).flatten() + rest =~= cut_lines(buf).flatten());
    }
}

/// The text of a logged line is the line without the white space that ends it, as a terminal
/// shows it and without escape sequences. A line of white space alone is not logged.
pub proof fn law_logged_line_is_trimmed(raw: Seq<u8>, text: Seq<char>, space: Seq<char>)
    requires
        lossy_decoded(raw) == text + space,
        text.len() > 0 ==> !crate::text::is_whitespace(text.last()),
        forall|i: int| 0 <= i < space.len() ==> crate::text::is_whitespace(#[trigger] space[i]),
    ensures
        text.len() == 0 ==> line_text(raw) is None,
        text.len() > 0 ==> line_text(raw) == Some(stripped(normalized(text))),
        text.len() > 0 && !text.contains('\r') ==> line_text(raw) == Some(stripped(text)),
{
    crate::text::law_trimming_takes_the_white_space(text, space);
    if !text.contains('\r') {
        crate::pty::law_normalized_keeps_plain_text(text);
    }
}

/// The logged texts are those of the lines, one for each line that is logged, in their order.
pub proof fn law_lines_are_logged_one_by_one(a: Seq<Seq<u8>>, b: Seq<Seq<u8>>, raw: Seq<u8>)
    ensures
        line_texts(Seq::empty()) == Seq::<Seq<char>>::empty(),
        line_text(raw) is None ==> line_texts(seq![raw]) == Seq::<Seq<char>>::empty(),
        line_text(raw) is Some ==> line_texts(seq![raw]) == seq![line_text(raw)->0],
        line_texts(a + b) == line_texts(a) + line_texts(b),
{
    lemma_line_texts_concat(a, b);
    assert(seq![raw].drop_last() =~= Seq::<Seq<u8>>::empty());
    assert(line_texts(seq![raw].drop_last()) == Seq::<Seq<char>>::empty());
    if line_text(raw) is Some {
        assert(line_texts(seq![raw]) =~= seq![line_text(raw)->0]);
    }
}

/// The client gets the texts of the lines where the level of their log passes, and none where it
/// does not.
pub proof fn law_level_decides_on_the_texts(
    buf: Seq<u8>,
    target: LogTarget,
    min: LoggingLevel,
    flush_all: bool,
)
    ensures
        passes(target.level, min) ==> flushed_texts(buf, target, min, flush_all) == line_texts(
            flushed_lines(buf, flush_all),
        ),
        !passes(target.level, min) ==> flushed_texts(buf, target, min, flush_all) == Seq::<
            Seq<char>,
        >::empty(),
{
}

/// Messages carry the texts in their order, each with the level and the logger of its log.
pub proof fn law_messages_carry_the_texts(
    messages: Seq<LoggingMessage>,
    target: LogTarget,
    texts: Seq<Seq<char>>,
    i: int,
)
    requires
        are_messages(messages, target, texts),
    ensures
        messages.len() == texts.len(),
        0 <= i < messages.len() ==> {
            &&& messages[i].level == target.level
            &&& messages[i].logger@ == target.logger@
            &&& messages[i].data@ == texts[i]
        },
{
    if 0 <= i < messages.len() {
        assert(messages[i].is(target, texts[i]));
    }
}

/// Where lines are kept, plain text in valid UTF-8 is logged as it is.
pub proof fn law_kept_line_is_logged_as_it_is(lines: Seq<Seq<u8>>, i: int, text: Seq<char>)
    requires
        keeps_lines(lines),
        0 <= i < lines.len(),
        lines[i] == vstd::utf8::encode_utf8(text),
        text.len() > 0,
        !crate::text::is_whitespace(text.last()),
        !text.contains('\r'),
        crate::ansi::is_plain(text),
    ensures
        line_text(lines[i]) == Some(text),
{
    assert(keeps_line(lines[i]));
    crate::ansi::law_valid_text_survives(text, lines[i]);
    assert(text + Seq::<char>::empty() =~= text);
    law_logged_line_is_trimmed(lines[i], text, Seq::empty());
    crate::text::law_trimming_takes_the_white_space(text, Seq::empty());
    crate::pty::law_normalized_keeps_plain_text(text);
}

} // verus!

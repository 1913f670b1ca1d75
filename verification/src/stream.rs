//! The complete lines of log files, and what becomes of the escape sequences in them.

use vstd::prelude::*;

use crate::ansi::{
    decode_lossy, html_converted, html_or_stripped, html_text, keeps_plain, keeps_valid,
    lossy_decoded, strip_ansi, stripped,
};
use crate::pty::{
    law_normalized_has_no_cr, law_normalized_line_stays_one_line, normalize_pty_output, normalized,
};
use crate::text::{
    lemma_pieces_have_no_separator, lemma_split_grows, lemma_split_nonempty, split_on, split_text,
    texts, trim_end_of, trimmed_of,
};

verus! {

/// A line as a terminal shows it, without the carriage returns that end it.
pub open spec fn shown_line(line: Seq<char>) -> Seq<char> {
    normalized(trimmed_of(line, '\r'))
}

/// A line as a terminal shows it, without the carriage returns that end it.
pub fn show_line(line: &str) -> (r: String)
    ensures
        r@ == shown_line(line@),
{
    let trimmed = trim_end_of(line, '\r');
    normalize_pty_output(trimmed.as_str())
}

/// The complete lines of a log: those that a line feed ends, as a terminal shows them.
pub open spec fn complete_lines(text: Seq<char>) -> Seq<Seq<char>> {
    split_on(text, '\n').drop_last().map_values(|line: Seq<char>| shown_line(line))
}

/// The lines after the first `seen` ones.
pub open spec fn unseen(lines: Seq<Seq<char>>, seen: nat) -> Seq<Seq<char>> {
    if seen <= lines.len() {
        lines.skip(seen as int)
    } else {
        Seq::empty()
    }
}

/// Whether `numbered` are those lines, numbered from `seen + 1` on.
pub open spec fn are_numbered(
    numbered: Seq<(u64, String)>,
    lines: Seq<Seq<char>>,
    seen: nat,
) -> bool {
    &&& numbered.len() == lines.len()
    &&& forall|i: int|
        0 <= i < lines.len() ==> (#[trigger] numbered[i]).0 == seen + i + 1 && numbered[i].1@
            == lines[i]
}

/// The complete lines of a text after the first `lines_seen`, with their numbers. The first line
/// of the text has number 1.
pub fn number_lines(text: &str, lines_seen: u64) -> (r: Vec<(u64, String)>)
    ensures
        are_numbered(r@, unseen(complete_lines(text@), lines_seen as nat), lines_seen as nat),
{
    let pieces = split_text(text, '\n');
    let ghost all = complete_lines(text@);
    proof {
        lemma_split_nonempty(text@, '\n');
    }
    let count: usize = pieces.len() - 1;
    let mut r: Vec<(u64, String)> = Vec::new();
    if lines_seen >= count as u64 {
        return r;
    }
    let mut i: usize = lines_seen as usize;
    while i < count
        invariant
            count + 1 == pieces@.len(),
            count == all.len(),
            texts(pieces@) == split_on(text@, '\n'),
            all == complete_lines(text@),
            lines_seen <= i <= count,
            are_numbered(r@, all.subrange(lines_seen as int, i as int), lines_seen as nat),
        decreases count - i,
    {
        let line = show_line(pieces[i].as_str());
        r.push((i as u64 + 1, line));
        i += 1;
    }
    r
}

/// The complete lines of a log file after the first `lines_seen`, with their numbers. An
/// unfinished last line is left for later.
pub fn read_complete_lines(content: &[u8], lines_seen: u64) -> (r: Vec<(u64, String)>)
    ensures
        are_numbered(
            r@,
            unseen(complete_lines(lossy_decoded(content@)), lines_seen as nat),
            lines_seen as nat,
        ),
        keeps_valid(content@),
{
    let text = decode_lossy(content);
    number_lines(text.as_str(), lines_seen)
}

/// What becomes of the escape sequences in a line.
#[derive(Clone, Copy, Debug, PartialEq, Eq, Structural)]
pub enum AnsiMode {
    /// They are kept.
    Raw,
    /// They are removed.
    Strip,
    /// They become styled HTML.
    Html,
}

/// A line as a follower gets it.
pub open spec fn presented(line: Seq<char>, mode: AnsiMode) -> Seq<char> {
    match mode {
        AnsiMode::Raw => line,
        AnsiMode::Strip => stripped(line),
        AnsiMode::Html => html_or_stripped(html_converted(line), line),
    }
}

/// A text as a follower gets it.
pub fn present(line: String, mode: AnsiMode) -> (r: String)
    ensures
        r@ == presented(line@, mode),
        mode == AnsiMode::Strip ==> keeps_plain(line@),
        mode == AnsiMode::Html && !line@.contains('\u{1b}') ==> r@ == html_text(line@),
{
    match mode {
        AnsiMode::Raw => line,
        AnsiMode::Strip => strip_ansi(line.as_str()),
        AnsiMode::Html => crate::ansi::ansi_to_html(line.as_str()),
    }
}

/// The whole of a log file as a viewer gets it.
pub fn present_content(content: &[u8], mode: AnsiMode) -> (r: String)
    ensures
        r@ == presented(lossy_decoded(content@), mode),
        keeps_valid(content@),
        mode == AnsiMode::Strip ==> keeps_plain(lossy_decoded(content@)),
        mode == AnsiMode::Html && !lossy_decoded(content@).contains('\u{1b}') ==> r@ == html_text(
            lossy_decoded(content@),
        ),
{
    present(decode_lossy(content), mode)
}

/// The mode of a page or of the feed behind it: HTML, unless the query asks for raw or stripped
/// text. Raw wins over stripped.
pub fn page_mode(raw: bool, strip: bool) -> (r: AnsiMode)
    ensures
        r == if raw {
            AnsiMode::Raw
        } else if strip {
            AnsiMode::Strip
        } else {
            AnsiMode::Html
        },
{
    if raw {
        AnsiMode::Raw
    } else if strip {
        AnsiMode::Strip
    } else {
        AnsiMode::Html
    }
}

/// The mode of an event stream: clean text, unless the query asks for raw text.
pub fn event_mode(raw: bool) -> (r: AnsiMode)
    ensures
        r == if raw {
            AnsiMode::Raw
        } else {
            AnsiMode::Strip
        },
{
    if raw {
        AnsiMode::Raw
    } else {
        AnsiMode::Strip
    }
}

/// How many lines a reader has seen once it has read the lines of a log.
pub open spec fn seen_after(lines: Seq<Seq<char>>, seen: nat) -> nat {
    if seen < lines.len() {
        lines.len()
    } else {
        seen
    }
}

proof fn lemma_unfinished_line(head: Seq<char>, rest: Seq<char>)
    requires
        !rest.contains('\n'),
    ensures
        complete_lines(head + rest) == complete_lines(head),
    decreases rest.len(),
{
    lemma_split_nonempty(head, '\n');
    if rest.len() == 0 {
        assert(head + rest =~= head);
    } else {
        assert(rest.contains(rest.last()));
        assert(!rest.drop_last().contains('\n'));
        lemma_unfinished_line(head, rest.drop_last());
        assert((head + rest).drop_last() =~= head + rest.drop_last());
        lemma_split_nonempty(head + rest.drop_last(), '\n');
        assert(split_on(head + rest, '\n').drop_last() =~= split_on(
            head + rest.drop_last(),
            '\n',
        ).drop_last());
    }
}

/// A log that grows keeps its complete lines and their numbers. Its text grows from
/// `head + rest` to `head + later`: `rest` belongs to the unfinished last line, which may read
/// otherwise when more of it has come.
pub proof fn law_complete_lines_only_grow(head: Seq<char>, rest: Seq<char>, later: Seq<char>)
    requires
        !rest.contains('\n'),
    ensures
        complete_lines(head + rest).len() <= complete_lines(head + later).len(),
        complete_lines(head + later).take(complete_lines(head + rest).len() as int)
            == complete_lines(head + rest),
{
    lemma_unfinished_line(head, rest);
    lemma_split_nonempty(head, '\n');
    lemma_split_nonempty(head + later, '\n');
    lemma_split_grows(head, later, '\n');
    let old_pieces = split_on(head, '\n').drop_last();
    let new_pieces = split_on(head + later, '\n');
    assert forall|i: int| 0 <= i < old_pieces.len() implies new_pieces[i] == old_pieces[i] by {
        assert(new_pieces.take(old_pieces.len() as int)[i] == old_pieces[i]);
    }
    assert(complete_lines(head + later).take(complete_lines(head).len() as int) =~= complete_lines(
        head,
    ));
}

/// A reader of a growing log that goes by line numbers gets each line once and in order: two
/// reads give what one read at the end would have given. The text grows as for
/// `law_complete_lines_only_grow`.
pub proof fn law_numbered_lines_are_read_once(
    head: Seq<char>,
    rest: Seq<char>,
    later: Seq<char>,
    seen: nat,
)
    requires
        !rest.contains('\n'),
    ensures
        unseen(complete_lines(head + later), seen) == unseen(complete_lines(head + rest), seen)
            + unseen(
            complete_lines(head + later),
            seen_after(complete_lines(head + rest), seen),
        ),
        seen_after(complete_lines(head + later), seen) == seen_after(
            complete_lines(head + later),
            seen_after(complete_lines(head + rest), seen),
        ),
{
    law_complete_lines_only_grow(head, rest, later);
    let first = complete_lines(head + rest);
    let all = complete_lines(head + later);
    assert forall|i: int| 0 <= i < first.len() implies all[i] == first[i] by {
        assert(all.take(first.len() as int)[i] == first[i]);
    }
    assert(unseen(all, seen) =~= unseen(first, seen) + unseen(all, seen_after(first, seen)));
}

proof fn lemma_trimmed_keeps_chars(s: Seq<char>, c: char, x: char)
    requires
        !s.contains(x),
    ensures
        !trimmed_of(s, c).contains(x),
    decreases s.len(),
{
    if s.len() > 0 && s.last() == c {
        lemma_trimmed_keeps_chars(s.drop_last(), c, x);
    }
}

/// A shown line is one line: where the line holds no line feed, what is shown of it holds neither
/// a line feed nor a carriage return.
pub proof fn law_shown_line_is_one_line(line: Seq<char>)
    requires
        !line.contains('\n'),
    ensures
        !shown_line(line).contains('\n'),
        !shown_line(line).contains('\r'),
{
    lemma_trimmed_keeps_chars(line, '\r', '\n');
    law_normalized_line_stays_one_line(trimmed_of(line, '\r'));
    law_normalized_has_no_cr(trimmed_of(line, '\r'));
}

/// A complete line is one line: it holds neither a line feed nor a carriage return.
pub proof fn law_complete_lines_are_single_lines(text: Seq<char>, i: int)
    requires
        0 <= i < complete_lines(text).len(),
    ensures
        !complete_lines(text)[i].contains('\n'),
        !complete_lines(text)[i].contains('\r'),
{
    lemma_split_nonempty(text, '\n');
    lemma_pieces_have_no_separator(text, '\n', i);
    law_shown_line_is_one_line(split_on(text, '\n')[i]);
}

proof fn lemma_nothing_to_trim(line: Seq<char>)
    requires
        !line.contains('\r'),
    ensures
        trimmed_of(line, '\r') == line,
{
    if line.len() > 0 {
        assert(line.contains(line.last()));
    }
}

/// A line without carriage returns is shown as it is, however long it is.
pub proof fn law_plain_line_is_shown_whole(line: Seq<char>)
    requires
        !line.contains('\r'),
    ensures
        shown_line(line) == line,
        presented(shown_line(line), AnsiMode::Raw) == line,
{
    lemma_nothing_to_trim(line);
    crate::pty::law_normalized_keeps_plain_text(line);
}

/// The carriage returns that end a line are not shown, and one inside it discards what stands
/// before it.
pub proof fn law_line_is_shown_behind_carriage_returns(before: Seq<char>, shown: Seq<char>)
    requires
        !before.contains('\n'),
        !shown.contains('\n'),
        !shown.contains('\r'),
    ensures
        shown_line(before.push('\r')) == shown_line(before),
        shown.len() > 0 ==> shown_line(before.push('\r') + shown) == shown,
{
    assert(before.push('\r').drop_last() =~= before);
    if shown.len() > 0 {
        let line = before.push('\r') + shown;
        assert(line.last() == shown.last());
        assert(shown.contains(shown.last()));
        assert(trimmed_of(line, '\r') == line);
        crate::pty::law_carriage_return_discards_the_line(before, shown);
    }
}

/// A line feed completes a line, which stands before those that follow it; a text without one has
/// no complete line.
pub proof fn law_line_feed_completes_a_line(line: Seq<char>, rest: Seq<char>)
    requires
        !line.contains('\n'),
    ensures
        complete_lines(line) == Seq::<Seq<char>>::empty(),
        complete_lines(line.push('\n') + rest) == seq![shown_line(line)] + complete_lines(rest),
        !line.contains('\r') ==> complete_lines(line.push('\n') + rest) == seq![line]
            + complete_lines(rest),
{
    crate::text::law_separator_parts_the_pieces(line, rest, '\n');
    lemma_split_nonempty(rest, '\n');
    assert(complete_lines(line) =~= Seq::<Seq<char>>::empty());
    assert((seq![line] + split_on(rest, '\n')).drop_last() =~= seq![line] + split_on(
        rest,
        '\n',
    ).drop_last());
    assert(complete_lines(line.push('\n') + rest) =~= seq![shown_line(line)] + complete_lines(
        rest,
    ));
    if !line.contains('\r') {
        law_plain_line_is_shown_whole(line);
    }
}

/// A reader who has seen the first lines gets the others, and only those; the lines it has seen
/// and the lines it gets are all of them.
pub proof fn law_unseen_lines_follow_the_seen(first: Seq<Seq<char>>, others: Seq<Seq<char>>, n: nat)
    requires
        n >= first.len(),
    ensures
        unseen(first + others, first.len()) == others,
        unseen(first, n) == Seq::<Seq<char>>::empty(),
        seen_after(first + others, first.len()) == first.len() + others.len(),
        seen_after(first, n) == n,
{
    assert((first + others).skip(first.len() as int) =~= others);
    if n == first.len() {
        assert(first.skip(n as int) =~= Seq::<Seq<char>>::empty());
    }
}

/// Numbered lines are the lines in their order, and each has the number behind that of the line
/// before it; the first has the number behind that of the last seen one.
pub proof fn law_lines_are_numbered_in_order(
    numbered: Seq<(u64, String)>,
    lines: Seq<Seq<char>>,
    seen: nat,
    i: int,
)
    requires
        are_numbered(numbered, lines, seen),
        0 <= i < lines.len(),
    ensures
        numbered.len() == lines.len(),
        numbered[i].1@ == lines[i],
        numbered[0].0 == seen + 1,
        i > 0 ==> numbered[i].0 == numbered[i - 1].0 + 1,
{
    assert(numbered[0].0 == seen + 1);
    if i > 0 {
        assert(numbered[i - 1].0 == seen + i);
    }
}

/// Raw text is presented as it is. Stripped text is what is left without escape sequences. Text
/// that cannot be styled is presented stripped, and other text as the styled HTML.
pub proof fn law_text_is_presented_in_its_mode(line: Seq<char>)
    ensures
        presented(line, AnsiMode::Raw) == line,
        presented(line, AnsiMode::Strip) == stripped(line),
        html_converted(line) is Some ==> presented(line, AnsiMode::Html) == html_converted(line)->0,
        html_converted(line) is None ==> presented(line, AnsiMode::Html) == presented(
            line,
            AnsiMode::Strip,
        ),
{
}

} // verus!

//! Normalization of terminal output for line-based consumption.

use vstd::prelude::*;

use crate::text::{chars_of, join_with, split_on, string_of};

verus! {

/// `s` with every `\r\n` replaced by `\n`.
pub open spec fn crlf_to_lf(s: Seq<char>) -> Seq<char>
    decreases s.len(),
{
    if s.len() == 0 {
        s
    } else if s.len() >= 2 && s[s.len() - 2] == '\r' && s.last() == '\n' {
        crlf_to_lf(s.take(s.len() - 2)).push('\n')
    } else {
        crlf_to_lf(s.drop_last()).push(s.last())
    }
}

/// What a terminal line shows in the end: the text after its last carriage return.
pub open spec fn after_last_cr(line: Seq<char>) -> Seq<char>
    decreases line.len(),
{
    if line.len() == 0 || line.last() == '\r' {
        Seq::empty()
    } else {
        after_last_cr(line.drop_last()).push(line.last())
    }
}

/// The lines of `s`, each as it shows in the end.
pub open spec fn shown_lines(s: Seq<char>) -> Seq<Seq<char>> {
    split_on(s, '\n').map_values(|line: Seq<char>| after_last_cr(line))
}

/// Terminal output as plain lines: `\r\n` ends a line like `\n` does, and a carriage return
/// anywhere else discards what stands before it on its line.
pub open spec fn normalized(s: Seq<char>) -> Seq<char> {
    join_with(shown_lines(crlf_to_lf(s)), seq!['\n'])
}

fn replace_crlf(s: &str) -> (out: Vec<char>)
    ensures
        out@ == crlf_to_lf(s@),
{
    let v = chars_of(s);
    let mut out: Vec<char> = Vec::new();
    let mut i: usize = 0;
    while i < v.len()
        invariant
            v@ == s@,
            i <= v@.len(),
            out@ == crlf_to_lf(s@.take(i as int)),
        decreases v@.len() - i,
    {
        let ghost next = s@.take(i + 1);
        assert(next.drop_last() =~= s@.take(i as int));
        if v[i] == '\n' && i > 0 && v[i - 1] == '\r' {
            assert(s@.take(i as int).drop_last() =~= s@.take(i - 1));
            assert(next.take(next.len() - 2) =~= s@.take(i - 1));
            out.pop();
            assert(out@ =~= crlf_to_lf(s@.take(i - 1)));
            out.push('\n');
        } else {
            out.push(v[i]);
        }
        i += 1;
    }
    assert(s@.take(i as int) =~= s@);
    out
}

proof fn lemma_shown_step(s: Seq<char>, c: char)
    ensures
        shown_lines(s).len() >= 1,
        c == '\n' ==> shown_lines(s.push(c)) == shown_lines(s).push(Seq::empty()),
        c == '\r' ==> shown_lines(s.push(c)) == shown_lines(s).drop_last().push(Seq::empty()),
        c != '\n' && c != '\r' ==> shown_lines(s.push(c)) == shown_lines(s).drop_last().push(
            shown_lines(s).last().push(c),
        ),
{
    crate::text::lemma_split_nonempty(s, '\n');
    assert(s.push(c).drop_last() =~= s);
    let before = split_on(s, '\n');
    if c == '\n' {
        assert(after_last_cr(Seq::empty()) =~= Seq::<char>::empty());
        assert(shown_lines(s.push(c)) =~= shown_lines(s).push(Seq::empty()));
    } else {
        let line = before.last().push(c);
        assert(line.drop_last() =~= before.last());
        assert(split_on(s.push(c), '\n') == before.drop_last().push(line));
        assert(shown_lines(s.push(c)) =~= shown_lines(s).drop_last().push(after_last_cr(line)));
    }
}

proof fn lemma_join_step(pieces: Seq<Seq<char>>, c: char)
    requires
        pieces.len() >= 1,
    ensures
        join_with(pieces.push(Seq::empty()), seq!['\n']) == join_with(pieces, seq!['\n']).push('\n'),
        join_with(pieces.drop_last().push(pieces.last().push(c)), seq!['\n']) == join_with(
            pieces,
            seq!['\n'],
        ).push(c),
        join_with(pieces, seq!['\n']).len() >= pieces.last().len(),
        join_with(pieces.drop_last().push(Seq::empty()), seq!['\n']) == join_with(
            pieces,
            seq!['\n'],
        ).take(join_with(pieces, seq!['\n']).len() - pieces.last().len()),
{
    let nl = seq!['\n'];
    assert(pieces.push(Seq::empty()).drop_last() =~= pieces);
    assert(join_with(pieces.push(Seq::empty()), nl) =~= join_with(pieces, nl).push('\n'));
    let grown = pieces.drop_last().push(pieces.last().push(c));
    let cut = pieces.drop_last().push(Seq::empty());
    assert(grown.drop_last() =~= pieces.drop_last());
    assert(cut.drop_last() =~= pieces.drop_last());
    assert(join_with(grown, nl) =~= join_with(pieces, nl).push(c));
    assert(join_with(cut, nl) =~= join_with(pieces, nl).take(
        join_with(pieces, nl).len() - pieces.last().len(),
    ));
}

fn overwrite_lines(v: &Vec<char>) -> (out: Vec<char>)
    ensures
        out@ == join_with(shown_lines(v@), seq!['\n']),
{
    let mut out: Vec<char> = Vec::new();
    let mut line_start: usize = 0;
    let mut i: usize = 0;
    proof {
        assert(v@.take(0) =~= Seq::<char>::empty());
        assert(after_last_cr(Seq::empty()) =~= Seq::<char>::empty());
        assert(shown_lines(v@.take(0)) =~= seq![Seq::<char>::empty()]);
    }
    while i < v.len()
        invariant
            i <= v@.len(),
            line_start <= out@.len(),
            shown_lines(v@.take(i as int)).len() >= 1,
            out@ == join_with(shown_lines(v@.take(i as int)), seq!['\n']),
            out@.len() - line_start == shown_lines(v@.take(i as int)).last().len(),
        decreases v@.len() - i,
    {
        let c: char = v[i];
        proof {
            assert(v@.take(i + 1) =~= v@.take(i as int).push(c));
            lemma_shown_step(v@.take(i as int), c);
            lemma_join_step(shown_lines(v@.take(i as int)), c);
        }
        if c == '\n' {
            out.push(c);
            line_start = out.len();
        } else if c == '\r' {
            out.truncate(line_start);
        } else {
            out.push(c);
        }
        i += 1;
    }
    assert(v@.take(i as int) =~= v@);
    out
}

/// Normalizes terminal output for clean line-based consumption.
///
/// `\r\n` becomes `\n`. A standalone `\r` discards everything before it on its line and keeps
/// only what follows, so progress bars and spinners collapse to their final state.
pub fn normalize_pty_output(s: &str) -> (r: String)
    ensures
        r@ == normalized(s@),
{
    let unix = replace_crlf(s);
    let shown = overwrite_lines(&unix);
    string_of(&shown)
}

/// How often `c` stands in `s`.
pub open spec fn count_of(s: Seq<char>, c: char) -> nat
    decreases s.len(),
{
    if s.len() == 0 {
        0
    } else {
        count_of(s.drop_last(), c) + if s.last() == c {
            1nat
        } else {
            0nat
        }
    }
}

proof fn lemma_count_concat(a: Seq<char>, b: Seq<char>, c: char)
    ensures
        count_of(a + b, c) == count_of(a, c) + count_of(b, c),
    decreases b.len(),
{
    if b.len() == 0 {
        assert(a + b =~= a);
    } else {
        assert((a + b).drop_last() =~= a + b.drop_last());
        lemma_count_concat(a, b.drop_last(), c);
    }
}

proof fn lemma_count_push(a: Seq<char>, x: char, c: char)
    ensures
        count_of(a.push(x), c) == count_of(a, c) + if x == c {
            1nat
        } else {
            0nat
        },
{
    assert(a.push(x).drop_last() =~= a);
}

spec fn overwritten(s: Seq<char>) -> Seq<char> {
    join_with(shown_lines(s), seq!['\n'])
}

proof fn lemma_overwritten_empty()
    ensures
        overwritten(Seq::empty()) == Seq::<char>::empty(),
        shown_lines(Seq::empty()) == seq![Seq::<char>::empty()],
{
    assert(after_last_cr(Seq::empty()) =~= Seq::<char>::empty());
    assert(shown_lines(Seq::empty()) =~= seq![Seq::<char>::empty()]);
}

proof fn lemma_overwritten_step(s: Seq<char>, c: char)
    ensures
        c != '\r' ==> overwritten(s.push(c)) == overwritten(s).push(c),
        c == '\r' ==> overwritten(s.push(c)) == overwritten(s).take(
            overwritten(s).len() - shown_lines(s).last().len(),
        ),
        shown_lines(s).last().len() <= overwritten(s).len(),
        overwritten(s).skip(overwritten(s).len() - shown_lines(s).last().len()) == shown_lines(
            s,
        ).last(),
{
    lemma_shown_step(s, c);
    let lines = shown_lines(s);
    lemma_join_step(lines, c);
    if lines.len() == 1 {
        assert(overwritten(s) == lines[0]);
    } else {
        assert(overwritten(s) == join_with(lines.drop_last(), seq!['\n']) + seq!['\n']
            + lines.last());
    }
    assert(overwritten(s).skip(overwritten(s).len() - lines.last().len()) =~= lines.last());
}

proof fn lemma_overwritten_counts(s: Seq<char>)
    ensures
        count_of(overwritten(s), '\n') == count_of(s, '\n'),
        count_of(overwritten(s), '\r') == 0,
        count_of(shown_lines(s).last(), '\n') == 0,
    decreases s.len(),
{
    if s.len() == 0 {
        assert(s =~= Seq::empty());
        lemma_overwritten_empty();
    } else {
        let before = s.drop_last();
        let c = s.last();
        assert(s =~= before.push(c));
        lemma_overwritten_counts(before);
        lemma_overwritten_step(before, c);
        lemma_shown_step(before, c);
        let out = overwritten(before);
        lemma_count_push(out, c, '\n');
        lemma_count_push(out, c, '\r');
        lemma_count_push(shown_lines(before).last(), c, '\n');
        if c == '\r' {
            let keep = out.len() - shown_lines(before).last().len();
            assert(out =~= out.take(keep) + out.skip(keep));
            lemma_count_concat(out.take(keep), out.skip(keep), '\n');
            lemma_count_concat(out.take(keep), out.skip(keep), '\r');
        }
    }
}

proof fn lemma_crlf_counts(s: Seq<char>)
    ensures
        count_of(crlf_to_lf(s), '\n') == count_of(s, '\n'),
    decreases s.len(),
{
    if s.len() == 0 {
    } else if s.len() >= 2 && s[s.len() - 2] == '\r' && s.last() == '\n' {
        let before = s.take(s.len() - 2);
        lemma_crlf_counts(before);
        lemma_count_push(crlf_to_lf(before), '\n', '\n');
        assert(s.drop_last().drop_last() =~= before);
        assert(count_of(s.drop_last(), '\n') == count_of(before, '\n'));
    } else {
        lemma_crlf_counts(s.drop_last());
        lemma_count_push(crlf_to_lf(s.drop_last()), s.last(), '\n');
    }
}

proof fn lemma_count_zero(s: Seq<char>, c: char)
    ensures
        count_of(s, c) == 0 <==> !s.contains(c),
    decreases s.len(),
{
    if s.len() > 0 {
        lemma_count_zero(s.drop_last(), c);
        assert(s =~= s.drop_last().push(s.last()));
        if s.drop_last().contains(c) {
            let i = choose|i: int| 0 <= i < s.drop_last().len() && s.drop_last()[i] == c;
            assert(s[i] == c);
        }
        if s.contains(c) && s.last() != c {
            let i = choose|i: int| 0 <= i < s.len() && s[i] == c;
            assert(s.drop_last()[i] == c);
        }
        if s.last() == c {
            assert(s[s.len() - 1] == c);
        }
    }
}

/// Normalized output has as many line breaks as the output had: no line is lost or added.
pub proof fn law_normalized_keeps_line_breaks(s: Seq<char>)
    ensures
        count_of(normalized(s), '\n') == count_of(s, '\n'),
{
    lemma_crlf_counts(s);
    lemma_overwritten_counts(crlf_to_lf(s));
}

/// Normalizing a single line gives a single line.
pub proof fn law_normalized_line_stays_one_line(line: Seq<char>)
    requires
        !line.contains('\n'),
    ensures
        !normalized(line).contains('\n'),
{
    lemma_count_zero(line, '\n');
    law_normalized_keeps_line_breaks(line);
    lemma_count_zero(normalized(line), '\n');
}

/// Normalized output holds no carriage return.
pub proof fn law_normalized_has_no_cr(s: Seq<char>)
    ensures
        !normalized(s).contains('\r'),
{
    lemma_overwritten_counts(crlf_to_lf(s));
    lemma_count_zero(normalized(s), '\r');
}

proof fn lemma_plain_unchanged(s: Seq<char>)
    requires
        count_of(s, '\r') == 0,
    ensures
        crlf_to_lf(s) == s,
        overwritten(s) == s,
    decreases s.len(),
{
    if s.len() == 0 {
        assert(s =~= Seq::empty());
        lemma_overwritten_empty();
    } else {
        assert(s =~= s.drop_last().push(s.last()));
        lemma_plain_unchanged(s.drop_last());
        lemma_overwritten_step(s.drop_last(), s.last());
        if s.len() >= 2 {
            lemma_count_zero(s, '\r');
            assert(s.contains(s[s.len() - 2]));
        }
    }
}

/// Text without carriage returns is left as it is.
pub proof fn law_normalized_keeps_plain_text(s: Seq<char>)
    requires
        !s.contains('\r'),
    ensures
        normalized(s) == s,
{
    lemma_count_zero(s, '\r');
    lemma_plain_unchanged(s);
}

/// Normalizing a second time changes nothing.
pub proof fn law_normalized_idempotent(s: Seq<char>)
    ensures
        normalized(normalized(s)) == normalized(s),
{
    law_normalized_has_no_cr(s);
    law_normalized_keeps_plain_text(normalized(s));
}

proof fn lemma_crlf_concat(a: Seq<char>, b: Seq<char>)
    requires
        a.len() > 0 ==> a.last() != '\r',
    ensures
        crlf_to_lf(a + b) == crlf_to_lf(a) + crlf_to_lf(b),
    decreases b.len(),
{
    let all = a + b;
    if b.len() == 0 {
        assert(all =~= a);
        assert(crlf_to_lf(a) + crlf_to_lf(b) =~= crlf_to_lf(a));
    } else if b.len() >= 2 && b[b.len() - 2] == '\r' && b.last() == '\n' {
        assert(all.take(all.len() - 2) =~= a + b.take(b.len() - 2));
        lemma_crlf_concat(a, b.take(b.len() - 2));
        assert(crlf_to_lf(all) =~= crlf_to_lf(a) + crlf_to_lf(b));
    } else {
        assert(all.drop_last() =~= a + b.drop_last());
        lemma_crlf_concat(a, b.drop_last());
        if all.len() >= 2 && b.len() == 1 && a.len() > 0 {
            assert(all[all.len() - 2] == a.last());
        }
        assert(crlf_to_lf(all) =~= crlf_to_lf(a) + crlf_to_lf(b));
    }
}

proof fn lemma_shown_concat(a: Seq<char>, b: Seq<char>)
    ensures
        shown_lines(a.push('\n') + b) == shown_lines(a) + shown_lines(b),
    decreases b.len(),
{
    if b.len() == 0 {
        assert(b =~= Seq::empty());
        assert(a.push('\n') + b =~= a.push('\n'));
        lemma_overwritten_empty();
        lemma_shown_step(a, '\n');
        assert(shown_lines(a.push('\n') + b) =~= shown_lines(a) + shown_lines(b));
    } else {
        let c = b.last();
        let shorter = b.drop_last();
        assert(b =~= shorter.push(c));
        assert(a.push('\n') + b =~= (a.push('\n') + shorter).push(c));
        lemma_shown_concat(a, shorter);
        lemma_shown_step(shorter, c);
        lemma_shown_step(a.push('\n') + shorter, c);
        assert((shown_lines(a) + shown_lines(shorter)).drop_last() =~= shown_lines(a)
            + shown_lines(shorter).drop_last());
        assert(shown_lines(a.push('\n') + b) =~= shown_lines(a) + shown_lines(b));
    }
}

proof fn lemma_join_concat(p: Seq<Seq<char>>, q: Seq<Seq<char>>, sep: Seq<char>)
    requires
        p.len() >= 1,
        q.len() >= 1,
    ensures
        join_with(p + q, sep) == join_with(p, sep) + sep + join_with(q, sep),
    decreases q.len(),
{
    assert((p + q).drop_last() =~= p + q.drop_last());
    if q.len() == 1 {
        assert(p + q.drop_last() =~= p);
    } else {
        lemma_join_concat(p, q.drop_last(), sep);
        assert(join_with(p + q, sep) =~= join_with(p, sep) + sep + join_with(q, sep));
    }
}

/// Output may be normalized line by line: a line break that does not complete a `\r\n` cuts it
/// into two parts that do not touch each other.
pub proof fn law_normalized_by_lines(a: Seq<char>, b: Seq<char>)
    requires
        a.len() > 0 ==> a.last() != '\r',
    ensures
        normalized(a.push('\n') + b) == normalized(a).push('\n') + normalized(b),
{
    lemma_crlf_concat(a, seq!['\n']);
    assert(a + seq!['\n'] =~= a.push('\n'));
    assert(crlf_to_lf(seq!['\n']) =~= seq!['\n']) by {
        let nl = seq!['\n'];
        assert(nl.drop_last() =~= Seq::<char>::empty());
        assert(crlf_to_lf(nl.drop_last()) =~= Seq::<char>::empty());
        assert(crlf_to_lf(nl) == crlf_to_lf(nl.drop_last()).push(nl.last()));
    }
    assert(crlf_to_lf(a.push('\n')) =~= crlf_to_lf(a).push('\n'));
    lemma_crlf_concat(a.push('\n'), b);
    lemma_shown_concat(crlf_to_lf(a), crlf_to_lf(b));
    lemma_shown_step(crlf_to_lf(a), 'x');
    lemma_shown_step(crlf_to_lf(b), 'x');
    lemma_join_concat(shown_lines(crlf_to_lf(a)), shown_lines(crlf_to_lf(b)), seq!['\n']);
    assert(normalized(a.push('\n') + b) =~= normalized(a).push('\n') + normalized(b));
}

proof fn lemma_crlf_before(a: Seq<char>, b: Seq<char>)
    ensures
        crlf_to_lf(a.push('\r').push('\n') + b) == crlf_to_lf(a).push('\n') + crlf_to_lf(b),
    decreases b.len(),
{
    let head = a.push('\r').push('\n');
    assert(head.take(head.len() - 2) =~= a);
    assert(crlf_to_lf(head) =~= crlf_to_lf(a).push('\n'));
    lemma_crlf_concat(head, b);
}

proof fn lemma_no_crlf(s: Seq<char>)
    requires
        !s.contains('\n'),
    ensures
        crlf_to_lf(s) == s,
    decreases s.len(),
{
    if s.len() > 0 {
        assert(s.contains(s.last()));
        assert(!s.drop_last().contains('\n')) by {
            assert forall|i: int| 0 <= i < s.drop_last().len() implies s.drop_last()[i] != '\n' by {
                assert(s.contains(s[i]));
            }
        }
        lemma_no_crlf(s.drop_last());
        assert(s =~= s.drop_last().push(s.last()));
    }
}

proof fn lemma_after_cr(a: Seq<char>, b: Seq<char>)
    requires
        !b.contains('\r'),
    ensures
        after_last_cr(a.push('\r') + b) == b,
    decreases b.len(),
{
    if b.len() == 0 {
        assert(a.push('\r') + b =~= a.push('\r'));
        assert(b =~= Seq::empty());
    } else {
        assert(b.contains(b.last()));
        assert(!b.drop_last().contains('\r')) by {
            assert forall|i: int| 0 <= i < b.drop_last().len() implies b.drop_last()[i] != '\r' by {
                assert(b.contains(b[i]));
            }
        }
        lemma_after_cr(a, b.drop_last());
        assert((a.push('\r') + b).drop_last() =~= a.push('\r') + b.drop_last());
        assert(b =~= b.drop_last().push(b.last()));
    }
}

/// A carriage return inside a line discards what stands before it: of the line only what follows
/// the last one is left.
pub proof fn law_carriage_return_discards_the_line(before: Seq<char>, shown: Seq<char>)
    requires
        !before.contains('\n'),
        !shown.contains('\n'),
        !shown.contains('\r'),
    ensures
        normalized(before.push('\r') + shown) == shown,
{
    let line = before.push('\r') + shown;
    assert(!line.contains('\n')) by {
        assert forall|i: int| 0 <= i < line.len() implies line[i] != '\n' by {
            if i < before.len() {
                assert(before.contains(before[i]));
            } else if i > before.len() {
                assert(shown.contains(shown[i - before.len() - 1]));
            }
        }
    }
    lemma_no_crlf(line);
    lemma_after_cr(before, shown);
    crate::text::law_separator_parts_the_pieces(line, Seq::empty(), '\n');
    assert(shown_lines(line) =~= seq![shown]);
}

/// A line that ends in `\r\n` is shown like one that ends in `\n`, and what follows it does not
/// touch it.
pub proof fn law_crlf_ends_a_line(a: Seq<char>, b: Seq<char>)
    ensures
        normalized(a.push('\r').push('\n') + b) == normalized(a).push('\n') + normalized(b),
{
    lemma_crlf_before(a, b);
    lemma_shown_concat(crlf_to_lf(a), crlf_to_lf(b));
    lemma_shown_step(crlf_to_lf(a), 'x');
    lemma_shown_step(crlf_to_lf(b), 'x');
    lemma_join_concat(shown_lines(crlf_to_lf(a)), shown_lines(crlf_to_lf(b)), seq!['\n']);
    assert(normalized(a.push('\r').push('\n') + b) =~= normalized(a).push('\n') + normalized(b));
}

/// A character is counted once for each place where it stands.
pub proof fn law_characters_are_counted(s: Seq<char>, last: char, c: char)
    ensures
        count_of(Seq::empty(), c) == 0,
        count_of(s.push(c), c) == count_of(s, c) + 1,
        last != c ==> count_of(s.push(last), c) == count_of(s, c),
{
    assert(s.push(c).drop_last() =~= s);
    assert(s.push(last).drop_last() =~= s);
}

} // verus!

//! Searching the output of sessions.

use vstd::prelude::*;

use crate::ansi::{keeps_plain, strip_ansi, stripped};
use crate::output::OutputStream;
use crate::protocol::{err, ErrorData, SearchOutputArgs};
use crate::pty::{normalize_pty_output, normalized};
use crate::runner::Runner;
use crate::text::{
    contains_text, decimal, has_text, join_strings, join_with, law_decimal_injective,
    lemma_decimal_digits, lines_of, owned, push_decimal, split_lines, texts,
};

verus! {

/// How many matching lines are returned where the request does not say.
pub const DEFAULT_MAX_RESULTS: usize = 20;

/// A line as it is shown among the matches: its number, counted from one, and its text.
pub open spec fn numbered(number: nat, line: Seq<char>) -> Seq<char> {
    decimal(number) + ": "@ + line
}

/// The lines that hold the pattern, numbered.
pub open spec fn matching(lines: Seq<Seq<char>>, pattern: Seq<char>) -> Seq<Seq<char>>
    decreases lines.len(),
{
    if lines.len() == 0 {
        Seq::empty()
    } else {
        let before = matching(lines.drop_last(), pattern);
        if contains_text(lines.last(), pattern) {
            before.push(numbered(lines.len(), lines.last()))
        } else {
            before
        }
    }
}

/// The first `max` of a list, or all of it where it is shorter.
pub open spec fn first_of(list: Seq<Seq<char>>, max: nat) -> Seq<Seq<char>> {
    if list.len() <= max {
        list
    } else {
        list.take(max as int)
    }
}

/// What a search of a text finds.
pub open spec fn found(text: Seq<char>, pattern: Seq<char>, max: nat) -> Seq<Seq<char>> {
    first_of(matching(lines_of(text), pattern), max)
}

/// The answer to a search.
pub open spec fn search_report(matches: Seq<Seq<char>>, pattern: Seq<char>, max: nat) -> Seq<char> {
    if matches.len() == 0 {
        "No matches for \""@ + pattern + "\""@
    } else {
        decimal(matches.len()) + " match(es) for \""@ + pattern + "\":\n"@ + join_with(
            matches,
            "\n"@,
        ) + if matches.len() >= max {
            "\n(showing first "@ + decimal(max) + " matches)"@
        } else {
            Seq::empty()
        }
    }
}

/// The number of lines that a request wants at most.
pub open spec fn max_of(args: SearchOutputArgs) -> usize {
    match args.max_results {
        Some(max) => max,
        None => DEFAULT_MAX_RESULTS,
    }
}

/// The stream that a request searches.
pub open spec fn searched_stream(args: SearchOutputArgs) -> OutputStream {
    if args.stderr {
        OutputStream::Stderr
    } else {
        OutputStream::Stdout
    }
}

proof fn lemma_matching_grows(lines: Seq<Seq<char>>, pattern: Seq<char>, i: int)
    requires
        0 <= i <= lines.len(),
    ensures
        matching(lines.take(i), pattern).len() <= matching(lines, pattern).len(),
        matching(lines, pattern).take(matching(lines.take(i), pattern).len() as int) == matching(
            lines.take(i),
            pattern,
        ),
    decreases lines.len(),
{
    if i == lines.len() {
        assert(lines.take(i) =~= lines);
    } else {
        lemma_matching_grows(lines.drop_last(), pattern, i);
        assert(lines.drop_last().take(i) =~= lines.take(i));
    }
}

/// Searches a text that holds no escape sequences. Returns the first `max` lines that hold the
/// pattern, each with its number.
pub fn search_lines(text: &str, pattern: &str, max: usize) -> (r: Vec<String>)
    ensures
        texts(r@) == found(text@, pattern@, max as nat),
{
    let lines = split_lines(text);
    let ghost all = lines_of(text@);
    let mut r: Vec<String> = Vec::new();
    let mut i: usize = 0;
    while i < lines.len() && r.len() < max
        invariant
            texts(lines@) == all,
            i <= lines@.len(),
            r@.len() <= max,
            texts(r@) == matching(all.take(i as int), pattern@),
        decreases lines@.len() - i,
    {
        assert(all.take(i + 1).drop_last() =~= all.take(i as int));
        if has_text(lines[i].as_str(), pattern) {
            let mut line = String::new();
            push_decimal(&mut line, i as u64 + 1);
            line.append(": ");
            line.append(lines[i].as_str());
            r.push(line);
        }
        i += 1;
    }
    proof {
        lemma_matching_grows(all, pattern@, i as int);
        if i == lines@.len() {
            assert(all.take(i as int) =~= all);
        }
    }
    r
}

/// Searches the output of a process: as a terminal would show it, without escape sequences.
pub fn search_output(content: &str, pattern: &str, max_results: usize) -> (r: Vec<String>)
    ensures
        texts(r@) == found(stripped(normalized(content@)), pattern@, max_results as nat),
        keeps_plain(normalized(content@)),
{
    let shown = normalize_pty_output(content);
    let clean = strip_ansi(shown.as_str());
    search_lines(clean.as_str(), pattern, max_results)
}

/// Words the answer to a search.
pub fn report_matches(matches: &Vec<String>, pattern: &str, max: usize) -> (r: String)
    ensures
        r@ == search_report(texts(matches@), pattern@, max as nat),
{
    if matches.len() == 0 {
        let mut r = owned("No matches for \"");
        r.append(pattern);
        r.append("\"");
        return r;
    }
    let mut r = String::new();
    push_decimal(&mut r, matches.len() as u64);
    r.append(" match(es) for \"");
    r.append(pattern);
    r.append("\":\n");
    let joined = join_strings(matches, "\n");
    r.append(joined.as_str());
    if matches.len() >= max {
        r.append("\n(showing first ");
        push_decimal(&mut r, max as u64);
        r.append(" matches)");
    }
    r
}

/// Answers a search. `content` is what the log that the request names holds, or why it could not
/// be read.
pub fn search_result(args: &SearchOutputArgs, content: Result<String, String>) -> (r: Result<
    String,
    ErrorData,
>)
    ensures
        match content {
            Ok(text) => r is Ok && r->Ok_0@ == search_report(
                found(stripped(normalized(text@)), args.pattern@, max_of(*args) as nat),
                args.pattern@,
                max_of(*args) as nat,
            ),
            Err(reason) => r is Err && r->Err_0.is_internal(reason@),
        },
        content matches Ok(text) ==> keeps_plain(normalized(text@)),
{
    match content {
        Err(reason) => Err(err(reason.as_str())),
        Ok(text) => {
            let max: usize = match args.max_results {
                Some(m) => m,
                None => DEFAULT_MAX_RESULTS,
            };
            let matches = search_output(text.as_str(), args.pattern.as_str(), max);
            Ok(report_matches(&matches, args.pattern.as_str(), max))
        },
    }
}

impl<P, T> Runner<P, T> {
    /// A request to search the output of a session: the log file to search.
    pub fn search_output(&self, args: &SearchOutputArgs) -> (r: Result<String, ErrorData>)
        requires
            self.wf(),
        ensures
            if !self.sessions@.contains_key(args.session_id@) {
                r is Err && r->Err_0.is_internal("Session not found"@)
            } else {
                match self.sessions@[args.session_id@].path_of(searched_stream(*args)) {
                    Some(path) => r is Ok && r->Ok_0@ == path,
                    None => r is Err && r->Err_0.is_internal("stderr not split for this session"@),
                }
            },
    {
        let stream = if args.stderr {
            OutputStream::Stderr
        } else {
            OutputStream::Stdout
        };
        match self.output_source(args.session_id.as_str(), stream) {
            Ok((path, _pos)) => Ok(path),
            Err(e) => Err(e),
        }
    }
}

/// Two numbered lines are the same only where the numbers and the lines are.
pub proof fn law_numbered_lines_differ(m: nat, a: Seq<char>, n: nat, b: Seq<char>)
    requires
        numbered(m, a) == numbered(n, b),
    ensures
        m == n,
        a == b,
{
    reveal_strlit(": ");
    lemma_decimal_digits(m);
    lemma_decimal_digits(n);
    let s = numbered(m, a);
    let i = decimal(m).len() as int;
    let j = decimal(n).len() as int;
    assert(s[i] == ':' && s[j] == ':');
    assert(s.take(i) =~= decimal(m));
    assert(s.take(i) =~= decimal(n));
    assert(s.skip(i + 2) =~= a);
    law_decimal_injective(m, n);
}

/// A line is among the matches, under its own number, exactly where it holds the pattern.
pub proof fn law_search_finds_the_lines_that_match(
    lines: Seq<Seq<char>>,
    pattern: Seq<char>,
    i: int,
)
    requires
        0 <= i < lines.len(),
    ensures
        matching(lines, pattern).contains(numbered((i + 1) as nat, lines[i])) <==> contains_text(
            lines[i],
            pattern,
        ),
    decreases lines.len(),
{
    let target = numbered((i + 1) as nat, lines[i]);
    let before = matching(lines.drop_last(), pattern);
    let all = matching(lines, pattern);
    if contains_text(lines.last(), pattern) {
        assert(all.last() == numbered(lines.len(), lines.last()));
    }
    if i == lines.len() - 1 {
        lemma_matches_are_earlier_lines(lines.drop_last(), pattern, lines.len(), lines[i]);
    } else {
        law_search_finds_the_lines_that_match(lines.drop_last(), pattern, i);
        if before.contains(target) {
            let k = choose|k: int| 0 <= k < before.len() && before[k] == target;
            assert(all[k] == target);
        }
        if all.contains(target) && !before.contains(target) {
            let k = choose|k: int| 0 <= k < all.len() && all[k] == target;
            law_numbered_lines_differ((i + 1) as nat, lines[i], lines.len(), lines.last());
        }
    }
}

proof fn lemma_matches_are_earlier_lines(
    lines: Seq<Seq<char>>,
    pattern: Seq<char>,
    number: nat,
    line: Seq<char>,
)
    requires
        number > lines.len(),
    ensures
        !matching(lines, pattern).contains(numbered(number, line)),
    decreases lines.len(),
{
    if lines.len() > 0 {
        lemma_matches_are_earlier_lines(lines.drop_last(), pattern, number, line);
        let before = matching(lines.drop_last(), pattern);
        let all = matching(lines, pattern);
        if all.contains(numbered(number, line)) {
            let k = choose|k: int| 0 <= k < all.len() && all[k] == numbered(number, line);
            if k == before.len() {
                law_numbered_lines_differ(number, line, lines.len(), lines.last());
            }
        }
    }
}

/// A search returns no more lines than were asked for, and all matches where they are no more
/// than that.
pub proof fn law_search_returns_at_most_max(text: Seq<char>, pattern: Seq<char>, max: nat)
    ensures
        found(text, pattern, max).len() <= max,
        found(text, pattern, max).is_prefix_of(matching(lines_of(text), pattern)),
        found(text, pattern, max).len() < max ==> found(text, pattern, max) == matching(
            lines_of(text),
            pattern,
        ),
{
}

/// Lines are searched one by one. A line that holds the pattern is found with its number, which
/// counts all lines from 1 on, behind what was found before it; any other line is passed over.
pub proof fn law_lines_are_searched_in_order(
    lines: Seq<Seq<char>>,
    line: Seq<char>,
    pattern: Seq<char>,
)
    ensures
        matching(Seq::empty(), pattern) == Seq::<Seq<char>>::empty(),
        contains_text(line, pattern) ==> matching(lines.push(line), pattern) == matching(
            lines,
            pattern,
        ).push(decimal(lines.len() + 1) + ": "@ + line),
        !contains_text(line, pattern) ==> matching(lines.push(line), pattern) == matching(
            lines,
            pattern,
        ),
{
    assert(lines.push(line).drop_last() =~= lines);
}

/// A search returns the first matches: all of them where they are no more than asked for, and
/// otherwise as many as asked for.
pub proof fn law_search_returns_the_first(text: Seq<char>, pattern: Seq<char>, max: nat)
    ensures
        ({
            let all = matching(lines_of(text), pattern);
            &&& all.len() <= max ==> found(text, pattern, max) == all
            &&& all.len() > max ==> found(text, pattern, max) == all.take(max as int)
        }),
{
}

/// The answer to a search counts the matches, names the pattern and lists the matches, and says
/// so where there may be more of them than asked for.
pub proof fn law_answer_lists_the_matches(
    matches: Seq<Seq<char>>,
    pattern: Seq<char>,
    max: nat,
)
    ensures
        matches.len() == 0 ==> search_report(matches, pattern, max) == "No matches for \""@ + pattern
            + "\""@,
        0 < matches.len() < max ==> search_report(matches, pattern, max) == decimal(matches.len())
            + " match(es) for \""@ + pattern + "\":\n"@ + join_with(matches, "\n"@),
        0 < matches.len() && matches.len() >= max ==> search_report(matches, pattern, max)
            == decimal(matches.len()) + " match(es) for \""@ + pattern + "\":\n"@ + join_with(
            matches,
            "\n"@,
        ) + "\n(showing first "@ + decimal(max) + " matches)"@,
{
    let head = decimal(matches.len()) + " match(es) for \""@ + pattern + "\":\n"@ + join_with(
        matches,
        "\n"@,
    );
    if 0 < matches.len() < max {
        assert(search_report(matches, pattern, max) =~= head);
    } else if 0 < matches.len() {
        assert(search_report(matches, pattern, max) =~= head + "\n(showing first "@ + decimal(max)
            + " matches)"@);
    }
}

/// A search looks through the stream that it names and returns as many matches as it asks for,
/// twenty where it does not say.
pub proof fn law_search_goes_by_its_request(args: SearchOutputArgs)
    ensures
        args.max_results is Some ==> max_of(args) == args.max_results->0,
        args.max_results is None ==> max_of(args) == 20,
        args.stderr ==> searched_stream(args) == OutputStream::Stderr,
        !args.stderr ==> searched_stream(args) == OutputStream::Stdout,
{
}

} // verus!

//! Character-level text operations shared by the rest of the library.

use vstd::prelude::*;

verus! {

/// `String::push` appends one character and changes nothing else.
pub assume_specification[ String::push ](s: &mut String, c: char)
    ensures
        final(s)@ == old(s)@.push(c),
;

/// The characters of `s`, in order.
pub fn chars_of(s: &str) -> (v: Vec<char>)
    ensures
        v@ == s@,
{
    let mut v: Vec<char> = Vec::new();
    for c in it: s.chars()
        invariant
            v@ == s@.take(it.index()),
            it.seq() == s@,
    {
        v.push(c);
    }
    v
}

/// Appends the characters `v[from..to]` to `out`.
pub fn push_chars(out: &mut String, v: &Vec<char>, from: usize, to: usize)
    requires
        from <= to <= v@.len(),
    ensures
        final(out)@ == old(out)@ + v@.subrange(from as int, to as int),
{
    let ghost before = out@;
    let mut i: usize = from;
    while i < to
        invariant
            from <= i <= to <= v@.len(),
            out@ == before + v@.subrange(from as int, i as int),
        decreases to - i,
    {
        out.push(v[i]);
        i += 1;
    }
}

/// The string made of the characters of `v`.
pub fn string_of(v: &Vec<char>) -> (s: String)
    ensures
        s@ == v@,
{
    let mut s = String::new();
    push_chars(&mut s, v, 0, v.len());
    s
}

/// Whether two strings hold the same characters.
pub fn same_text(a: &str, b: &str) -> (r: bool)
    ensures
        r == (a@ == b@),
{
    let x = chars_of(a);
    let y = chars_of(b);
    if x.len() != y.len() {
        return false;
    }
    let mut i: usize = 0;
    while i < x.len()
        invariant
            x@ == a@,
            y@ == b@,
            x@.len() == y@.len(),
            i <= x@.len(),
            forall|j: int| 0 <= j < i ==> x@[j] == y@[j],
        decreases x@.len() - i,
    {
        if x[i] != y[i] {
            return false;
        }
        i += 1;
    }
    assert(a@ =~= b@);
    true
}

/// An owned copy of `s`.
pub fn owned(s: &str) -> (r: String)
    ensures
        r@ == s@,
{
    s.to_owned()
}

/// The contents of a list of strings.
pub open spec fn texts(v: Seq<String>) -> Seq<Seq<char>> {
    v.map_values(|s: String| s@)
}

// Searching.

/// Whether `pat` stands in `s` at position `i`.
pub open spec fn occurs_at(s: Seq<char>, pat: Seq<char>, i: int) -> bool {
    0 <= i && i + pat.len() <= s.len() && s.subrange(i, i + pat.len()) == pat
}

/// Whether `pat` stands somewhere in `s`. The empty pattern stands everywhere.
pub open spec fn contains_text(s: Seq<char>, pat: Seq<char>) -> bool {
    exists|i: int| occurs_at(s, pat, i)
}

fn matches_at(s: &Vec<char>, pat: &Vec<char>, i: usize) -> (r: bool)
    requires
        i <= s@.len(),
    ensures
        r == occurs_at(s@, pat@, i as int),
{
    if pat.len() > s.len() - i {
        return false;
    }
    let mut k: usize = 0;
    while k < pat.len()
        invariant
            k <= pat@.len(),
            i + pat@.len() <= s.len(),
            forall|j: int| 0 <= j < k ==> s@[i + j] == pat@[j],
        decreases pat@.len() - k,
    {
        if s[i + k] != pat[k] {
            return false;
        }
        k += 1;
    }
    assert(s@.subrange(i as int, i + pat@.len()) =~= pat@);
    true
}

/// Case-sensitive substring test.
pub fn has_text(s: &str, pat: &str) -> (r: bool)
    ensures
        r == contains_text(s@, pat@),
{
    let v = chars_of(s);
    let p = chars_of(pat);
    let mut i: usize = 0;
    loop
        invariant
            v@ == s@,
            p@ == pat@,
            i <= v@.len(),
            forall|j: int| 0 <= j < i ==> !occurs_at(s@, pat@, j),
        decreases v@.len() - i,
    {
        if matches_at(&v, &p, i) {
            return true;
        }
        if i == v.len() {
            return false;
        }
        i += 1;
    }
}

// Splitting and joining.

/// The pieces of `s` between the occurrences of `sep`. There is always at least one piece.
pub open spec fn split_on(s: Seq<char>, sep: char) -> Seq<Seq<char>>
    decreases s.len(),
{
    if s.len() == 0 {
        seq![Seq::empty()]
    } else {
        let before = split_on(s.drop_last(), sep);
        if s.last() == sep {
            before.push(Seq::empty())
        } else {
            before.drop_last().push(before.last().push(s.last()))
        }
    }
}

/// The pieces one after the other with `sep` between them.
pub open spec fn join_with(pieces: Seq<Seq<char>>, sep: Seq<char>) -> Seq<char>
    decreases pieces.len(),
{
    if pieces.len() == 0 {
        Seq::empty()
    } else if pieces.len() == 1 {
        pieces[0]
    } else {
        join_with(pieces.drop_last(), sep) + sep + pieces.last()
    }
}

/// Splitting never gives an empty list.
pub proof fn lemma_split_nonempty(s: Seq<char>, sep: char)
    ensures
        split_on(s, sep).len() >= 1,
    decreases s.len(),
{
    if s.len() > 0 {
        lemma_split_nonempty(s.drop_last(), sep);
    }
}

/// Appending to a text can only change its last piece and add pieces after it.
pub proof fn lemma_split_grows(a: Seq<char>, b: Seq<char>, sep: char)
    ensures
        split_on(a, sep).len() <= split_on(a + b, sep).len(),
        split_on(a + b, sep).take(split_on(a, sep).len() - 1) == split_on(a, sep).drop_last(),
    decreases b.len(),
{
    lemma_split_nonempty(a, sep);
    if b.len() > 0 {
        lemma_split_grows(a, b.drop_last(), sep);
        assert((a + b).drop_last() =~= a + b.drop_last());
    }
}

/// No piece holds the separator.
pub proof fn lemma_pieces_have_no_separator(s: Seq<char>, sep: char, i: int)
    requires
        0 <= i < split_on(s, sep).len(),
    ensures
        !split_on(s, sep)[i].contains(sep),
    decreases s.len(),
{
    if s.len() > 0 {
        let before = split_on(s.drop_last(), sep);
        lemma_split_nonempty(s.drop_last(), sep);
        if i < before.len() {
            lemma_pieces_have_no_separator(s.drop_last(), sep, i);
        }
        if s.last() != sep && i == before.len() - 1 {
            let piece = split_on(s, sep)[i];
            assert(forall|j: int| 0 <= j < piece.len() ==> piece[j] != sep);
        }
    }
}

/// The pieces of `s` between the occurrences of `sep`, as strings.
pub fn split_text(s: &str, sep: char) -> (r: Vec<String>)
    ensures
        texts(r@) == split_on(s@, sep),
{
    let v = chars_of(s);
    let mut out: Vec<String> = Vec::new();
    let mut start: usize = 0;
    let mut i: usize = 0;
    assert(s@.take(0) =~= Seq::<char>::empty());
    while i < v.len()
        invariant
            v@ == s@,
            start <= i <= v@.len(),
            texts(out@).push(s@.subrange(start as int, i as int)) == split_on(s@.take(i as int), sep),
        decreases v@.len() - i,
    {
        assert(s@.take(i + 1).drop_last() =~= s@.take(i as int));
        if v[i] == sep {
            let mut piece = String::new();
            push_chars(&mut piece, &v, start, i);
            out.push(piece);
            start = i + 1;
            assert(s@.subrange(start as int, i + 1) =~= Seq::<char>::empty());
        } else {
            assert(s@.subrange(start as int, i + 1) =~= s@.subrange(start as int, i as int).push(
                s@[i as int],
            ));
        }
        i += 1;
    }
    let mut piece = String::new();
    push_chars(&mut piece, &v, start, i);
    out.push(piece);
    assert(s@.take(i as int) =~= s@);
    out
}

/// The strings of `list` one after the other with `sep` between them.
pub fn join_strings(list: &Vec<String>, sep: &str) -> (r: String)
    ensures
        r@ == join_with(texts(list@), sep@),
{
    let mut r = String::new();
    let mut i: usize = 0;
    while i < list.len()
        invariant
            i <= list@.len(),
            r@ == join_with(texts(list@).take(i as int), sep@),
        decreases list@.len() - i,
    {
        assert(texts(list@).take(i + 1).drop_last() =~= texts(list@).take(i as int));
        if i > 0 {
            r.append(sep);
        }
        r.append(list[i].as_str());
        i += 1;
    }
    assert(texts(list@).take(i as int) =~= texts(list@));
    r
}

/// A line without the carriage return that may end it.
pub open spec fn without_cr(line: Seq<char>) -> Seq<char> {
    if line.len() > 0 && line.last() == '\r' {
        line.drop_last()
    } else {
        line
    }
}

/// The lines of `s`. A line ends with `\n` or `\r\n`; the last one may lack its ending.
pub open spec fn lines_of(s: Seq<char>) -> Seq<Seq<char>> {
    let pieces = split_on(s, '\n');
    let ended = pieces.drop_last().map_values(|line: Seq<char>| without_cr(line));
    if pieces.last().len() == 0 {
        ended
    } else {
        ended.push(pieces.last())
    }
}

fn chop_cr(line: &str) -> (r: String)
    ensures
        r@ == without_cr(line@),
{
    let v = chars_of(line);
    let mut r = String::new();
    let n: usize = if v.len() > 0 && v[v.len() - 1] == '\r' {
        v.len() - 1
    } else {
        v.len()
    };
    push_chars(&mut r, &v, 0, n);
    r
}

/// The lines of `s`, without their line endings.
pub fn split_lines(s: &str) -> (r: Vec<String>)
    ensures
        texts(r@) == lines_of(s@),
{
    let pieces = split_text(s, '\n');
    let ghost all = split_on(s@, '\n');
    proof {
        lemma_split_nonempty(s@, '\n');
    }
    let last: usize = pieces.len() - 1;
    let mut out: Vec<String> = Vec::new();
    let ghost ended = all.drop_last().map_values(|line: Seq<char>| without_cr(line));
    let mut i: usize = 0;
    while i < last
        invariant
            last + 1 == pieces@.len(),
            all == texts(pieces@),
            ended == all.drop_last().map_values(|line: Seq<char>| without_cr(line)),
            i <= last,
            texts(out@) == ended.take(i as int),
        decreases last - i,
    {
        let ghost done = texts(out@);
        let line = chop_cr(pieces[i].as_str());
        out.push(line);
        assert(texts(out@) =~= done.push(line@));
        i += 1;
    }
    assert(ended.take(last as int) =~= ended);
    if !pieces[last].as_str().is_empty() {
        let line = owned(pieces[last].as_str());
        out.push(line);
    }
    out
}

// Trimming.

/// Unicode white space: the characters with the `White_Space` property.
pub open spec fn is_whitespace(c: char) -> bool {
    let n = c as u32;
    ||| 0x9 <= n <= 0xd
    ||| n == 0x20
    ||| n == 0x85
    ||| n == 0xa0
    ||| n == 0x1680
    ||| 0x2000 <= n <= 0x200a
    ||| n == 0x2028
    ||| n == 0x2029
    ||| n == 0x202f
    ||| n == 0x205f
    ||| n == 0x3000
}

/// Whether `c` is Unicode white space.
pub fn whitespace(c: char) -> (r: bool)
    ensures
        r == is_whitespace(c),
{
    let n: u32 = c as u32;
    (0x9 <= n && n <= 0xd) || n == 0x20 || n == 0x85 || n == 0xa0 || n == 0x1680 || (0x2000 <= n
        && n <= 0x200a) || n == 0x2028 || n == 0x2029 || n == 0x202f || n == 0x205f || n == 0x3000
}

/// `s` without the white space at its end.
pub open spec fn trimmed_end(s: Seq<char>) -> Seq<char>
    decreases s.len(),
{
    if s.len() > 0 && is_whitespace(s.last()) {
        trimmed_end(s.drop_last())
    } else {
        s
    }
}

/// `s` without the white space at its end.
pub fn trim_end(s: &str) -> (r: String)
    ensures
        r@ == trimmed_end(s@),
{
    let v = chars_of(s);
    let mut n: usize = v.len();
    assert(s@.take(n as int) =~= s@);
    while n > 0 && whitespace(v[n - 1])
        invariant
            v@ == s@,
            n <= v@.len(),
            trimmed_end(s@) == trimmed_end(s@.take(n as int)),
        decreases n,
    {
        assert(s@.take(n as int).drop_last() =~= s@.take(n - 1));
        n -= 1;
    }
    let mut r = String::new();
    push_chars(&mut r, &v, 0, n);
    r
}

/// `s` without the run of `c` at its end.
pub open spec fn trimmed_of(s: Seq<char>, c: char) -> Seq<char>
    decreases s.len(),
{
    if s.len() > 0 && s.last() == c {
        trimmed_of(s.drop_last(), c)
    } else {
        s
    }
}

/// `s` without the run of `c` at its end.
pub fn trim_end_of(s: &str, c: char) -> (r: String)
    ensures
        r@ == trimmed_of(s@, c),
{
    let v = chars_of(s);
    let mut n: usize = v.len();
    assert(s@.take(n as int) =~= s@);
    while n > 0 && v[n - 1] == c
        invariant
            v@ == s@,
            n <= v@.len(),
            trimmed_of(s@, c) == trimmed_of(s@.take(n as int), c),
        decreases n,
    {
        assert(s@.take(n as int).drop_last() =~= s@.take(n - 1));
        n -= 1;
    }
    let mut r = String::new();
    push_chars(&mut r, &v, 0, n);
    r
}

// Numbers.

/// The digit character for a value below ten.
pub open spec fn digit(d: nat) -> char {
    (0x30 + d) as char
}

/// `n` in decimal, without leading zeros.
pub open spec fn decimal(n: nat) -> Seq<char>
    decreases n,
{
    if n < 10 {
        seq![digit(n)]
    } else {
        decimal(n / 10).push(digit(n % 10))
    }
}

/// `i` in decimal, with a leading minus sign where it is negative.
pub open spec fn decimal_int(i: int) -> Seq<char> {
    if i < 0 {
        seq!['-'] + decimal((-i) as nat)
    } else {
        decimal(i as nat)
    }
}

/// Appends `n` in decimal.
pub fn push_decimal(out: &mut String, n: u64)
    ensures
        final(out)@ == old(out)@ + decimal(n as nat),
    decreases n,
{
    if n >= 10 {
        push_decimal(out, n / 10);
    }
    let d: u8 = (n % 10) as u8;
    let c: char = (0x30u8 + d) as char;
    out.push(c);
}

/// Appends `i` in decimal.
pub fn push_decimal_int(out: &mut String, i: i32)
    ensures
        final(out)@ == old(out)@ + decimal_int(i as int),
{
    let wide: i64 = i as i64;
    if wide < 0 {
        out.push('-');
        push_decimal(out, (0 - wide) as u64);
    } else {
        push_decimal(out, wide as u64);
    }
}

/// `n` in decimal.
pub fn decimal_string(n: u64) -> (r: String)
    ensures
        r@ == decimal(n as nat),
{
    let mut r = String::new();
    push_decimal(&mut r, n);
    r
}

/// Whether `c` is one of the ten ASCII digits.
pub open spec fn is_digit(c: char) -> bool {
    0x30 <= c as u32 <= 0x39
}

/// The value of a run of digits.
pub open spec fn digits_value(s: Seq<char>) -> nat
    decreases s.len(),
{
    if s.len() == 0 {
        0
    } else {
        10 * digits_value(s.drop_last()) + (s.last() as u32 - 0x30) as nat
    }
}

/// What an unsigned number may have in front of its digits: nothing, or one plus sign.
pub open spec fn unsigned_part(s: Seq<char>) -> Seq<char> {
    if s.len() > 0 && s[0] == '+' {
        s.skip(1)
    } else {
        s
    }
}

/// The number that `s` writes in decimal, where it is one that fits 64 bits.
pub open spec fn parsed_u64(s: Seq<char>) -> Option<u64> {
    let digits = unsigned_part(s);
    if digits.len() > 0 && (forall|i: int| 0 <= i < digits.len() ==> is_digit(#[trigger] digits[i]))
        && digits_value(digits) <= u64::MAX {
        Some(digits_value(digits) as u64)
    } else {
        None
    }
}

proof fn lemma_digits_value_grows(s: Seq<char>, i: int)
    requires
        0 <= i <= s.len(),
        forall|j: int| 0 <= j < s.len() ==> is_digit(#[trigger] s[j]),
    ensures
        digits_value(s.take(i)) <= digits_value(s),
    decreases s.len(),
{
    if i < s.len() {
        let shorter = s.drop_last();
        lemma_digits_value_grows(shorter, i);
        assert(shorter.take(i) =~= s.take(i));
    } else {
        assert(s.take(i) =~= s);
    }
}

/// Reads an unsigned decimal number: an optional plus sign, then at least one digit and nothing
/// else. `None` for any other text, and for a value over 64 bits.
pub fn parse_u64(s: &str) -> (r: Option<u64>)
    ensures
        r == parsed_u64(s@),
{
    let v = chars_of(s);
    let ghost digits = unsigned_part(s@);
    let start: usize = if v.len() > 0 && v[0] == '+' {
        1
    } else {
        0
    };
    if v.len() == start {
        return None;
    }
    let mut value: u64 = 0;
    let mut i: usize = start;
    while i < v.len()
        invariant
            v@ == s@,
            start <= i <= v@.len(),
            start < v@.len(),
            digits == s@.skip(start as int),
            digits == unsigned_part(s@),
            forall|j: int| 0 <= j < i - start ==> is_digit(#[trigger] digits[j]),
            value == digits_value(digits.take(i - start)),
        decreases v@.len() - i,
    {
        let c: char = v[i];
        assert(digits[i - start] == c);
        let n: u32 = c as u32;
        if n < 0x30 || n > 0x39 {
            return None;
        }
        let d: u64 = (n - 0x30) as u64;
        assert(digits.take(i + 1 - start).drop_last() =~= digits.take(i - start));
        if value > u64::MAX / 10 || value * 10 > u64::MAX - d {
            proof {
                if forall|j: int| 0 <= j < digits.len() ==> is_digit(#[trigger] digits[j]) {
                    lemma_digits_value_grows(digits, i + 1 - start);
                }
            }
            return None;
        }
        value = value * 10 + d;
        i += 1;
    }
    assert(digits.take(i - start) =~= digits);
    Some(value)
}

/// The decimal text of a number is made of digits, and they read as the number.
pub proof fn lemma_decimal_digits(n: nat)
    ensures
        decimal(n).len() > 0,
        forall|i: int| 0 <= i < decimal(n).len() ==> is_digit(#[trigger] decimal(n)[i]),
        digits_value(decimal(n)) == n,
    decreases n,
{
    if n < 10 {
        assert(digits_value(decimal(n).drop_last()) == 0);
    } else {
        lemma_decimal_digits(n / 10);
        assert(decimal(n).drop_last() =~= decimal(n / 10));
    }
}

/// Reading back the decimal text of a number gives the number.
pub proof fn law_parse_reads_decimal(n: u64)
    ensures
        parsed_u64(decimal(n as nat)) == Some(n),
{
    lemma_decimal_digits(n as nat);
}

/// Different numbers have different decimal texts.
pub proof fn law_decimal_injective(a: nat, b: nat)
    requires
        decimal(a) == decimal(b),
    ensures
        a == b,
{
    lemma_decimal_digits(a);
    lemma_decimal_digits(b);
}

// What the functions above are for, in terms of the texts themselves.

/// A text is contained in another exactly where something before it and something behind it make
/// up the other.
pub proof fn law_contained_text_has_surroundings(s: Seq<char>, pat: Seq<char>)
    ensures
        contains_text(s, pat) <==> exists|a: Seq<char>, b: Seq<char>| s == #[trigger] (a + pat + b),
{
    if contains_text(s, pat) {
        let i = choose|i: int| occurs_at(s, pat, i);
        assert(s =~= s.take(i) + pat + s.skip(i + pat.len()));
    }
    if exists|a: Seq<char>, b: Seq<char>| s == #[trigger] (a + pat + b) {
        let (a, b) = choose|a: Seq<char>, b: Seq<char>| s == #[trigger] (a + pat + b);
        assert(s.subrange(a.len() as int, (a.len() + pat.len()) as int) =~= pat);
        assert(occurs_at(s, pat, a.len() as int));
    }
}

/// A text without the separator is one piece, and a separator parts the pieces before it from
/// those behind it.
pub proof fn law_separator_parts_the_pieces(a: Seq<char>, b: Seq<char>, sep: char)
    ensures
        split_on(a.push(sep) + b, sep) == split_on(a, sep) + split_on(b, sep),
        !a.contains(sep) ==> split_on(a, sep) == seq![a],
    decreases a.len() + b.len(),
{
    if b.len() == 0 {
        assert(a.push(sep) + b =~= a.push(sep));
        assert(a.push(sep).drop_last() =~= a);
        assert(split_on(a.push(sep) + b, sep) =~= split_on(a, sep) + split_on(b, sep));
        if a.len() > 0 && !a.contains(sep) {
            assert(a.contains(a.last()));
            assert(!a.drop_last().contains(sep)) by {
                assert forall|i: int| 0 <= i < a.drop_last().len() implies a.drop_last()[i]
                    != sep by {
                    assert(a.contains(a[i]));
                }
            }
            law_separator_parts_the_pieces(a.drop_last(), b, sep);
            assert(a.drop_last().push(a.last()) =~= a);
            assert(split_on(a, sep) =~= seq![a]);
        } else if a.len() == 0 {
            assert(a =~= Seq::empty());
            assert(split_on(a, sep) =~= seq![a]);
        }
    } else {
        law_separator_parts_the_pieces(a, b.drop_last(), sep);
        lemma_split_nonempty(b.drop_last(), sep);
        assert((a.push(sep) + b).drop_last() =~= a.push(sep) + b.drop_last());
        let before = split_on(b.drop_last(), sep);
        assert((split_on(a, sep) + before).drop_last() =~= split_on(a, sep) + before.drop_last());
        assert(split_on(a.push(sep) + b, sep) =~= split_on(a, sep) + split_on(b, sep));
    }
}

/// No pieces join to nothing, one piece joins to itself, and two lists of pieces join to what
/// each of them joins to, with one separator between.
pub proof fn law_joined_lists_join(
    p: Seq<Seq<char>>,
    q: Seq<Seq<char>>,
    piece: Seq<char>,
    sep: Seq<char>,
)
    ensures
        join_with(Seq::empty(), sep) == Seq::<char>::empty(),
        join_with(seq![piece], sep) == piece,
        p.len() > 0 && q.len() > 0 ==> join_with(p + q, sep) == join_with(p, sep) + sep + join_with(
            q,
            sep,
        ),
    decreases q.len(),
{
    if p.len() > 0 && q.len() > 0 {
        assert((p + q).drop_last() =~= p + q.drop_last());
        if q.len() == 1 {
            assert(p + q.drop_last() =~= p);
        } else {
            law_joined_lists_join(p, q.drop_last(), piece, sep);
            assert(join_with(p + q, sep) =~= join_with(p, sep) + sep + join_with(q, sep));
        }
    }
}

/// Joining the pieces of a text with the separator gives the text back.
pub proof fn law_joining_undoes_splitting(s: Seq<char>, sep: char)
    ensures
        join_with(split_on(s, sep), seq![sep]) == s,
    decreases s.len(),
{
    if s.len() > 0 {
        let before = split_on(s.drop_last(), sep);
        lemma_split_nonempty(s.drop_last(), sep);
        law_joining_undoes_splitting(s.drop_last(), sep);
        assert(s =~= s.drop_last().push(s.last()));
        if s.last() == sep {
            assert(before.push(Seq::empty()).drop_last() =~= before);
            assert(join_with(split_on(s, sep), seq![sep]) =~= s);
        } else {
            let grown = before.drop_last().push(before.last().push(s.last()));
            assert(grown.drop_last() =~= before.drop_last());
            assert(join_with(grown, seq![sep]) =~= s);
        }
    }
}

/// A line feed ends a line, with or without a carriage return in front of it; what is left
/// behind the last one is a line too, unless it is empty.
pub proof fn law_lines_are_ended_by_line_feeds(line: Seq<char>, rest: Seq<char>)
    requires
        !line.contains('\n'),
    ensures
        lines_of(Seq::empty()) == Seq::<Seq<char>>::empty(),
        line.len() > 0 ==> lines_of(line) == seq![line],
        lines_of(line.push('\r').push('\n') + rest) == seq![line] + lines_of(rest),
        line.len() == 0 || line.last() != '\r' ==> lines_of(line.push('\n') + rest) == seq![line]
            + lines_of(rest),
{
    let e = Seq::<char>::empty();
    assert(split_on(e, '\n').drop_last() =~= Seq::<Seq<char>>::empty());
    assert(lines_of(e) =~= Seq::<Seq<char>>::empty());
    law_separator_parts_the_pieces(line, e, '\n');
    assert(seq![line].drop_last() =~= Seq::<Seq<char>>::empty());
    if line.len() > 0 {
        assert(lines_of(line) =~= seq![line]);
    }
    let with_cr = line.push('\r');
    assert(!with_cr.contains('\n')) by {
        assert forall|i: int| 0 <= i < with_cr.len() implies with_cr[i] != '\n' by {
            if i < line.len() {
                assert(line.contains(line[i]));
            }
        }
    }
    law_separator_parts_the_pieces(with_cr, rest, '\n');
    law_separator_parts_the_pieces(line, rest, '\n');
    lemma_split_nonempty(rest, '\n');
    assert(with_cr.drop_last() =~= line);
    let pieces = split_on(rest, '\n');
    assert((seq![with_cr] + pieces).drop_last() =~= seq![with_cr] + pieces.drop_last());
    assert((seq![line] + pieces).drop_last() =~= seq![line] + pieces.drop_last());
    assert(lines_of(with_cr.push('\n') + rest) =~= seq![line] + lines_of(rest));
    if line.len() == 0 || line.last() != '\r' {
        assert(lines_of(line.push('\n') + rest) =~= seq![line] + lines_of(rest));
    }
}

/// Trimming takes away white space at the end, all of it, and nothing else.
pub proof fn law_trimming_takes_the_white_space(text: Seq<char>, space: Seq<char>)
    requires
        text.len() > 0 ==> !is_whitespace(text.last()),
        forall|i: int| 0 <= i < space.len() ==> is_whitespace(#[trigger] space[i]),
    ensures
        trimmed_end(text + space) == text,
    decreases space.len(),
{
    if space.len() == 0 {
        assert(text + space =~= text);
    } else {
        assert(is_whitespace(space[space.len() - 1]));
        assert((text + space).drop_last() =~= text + space.drop_last());
        law_trimming_takes_the_white_space(text, space.drop_last());
    }
}

/// Trimming a character takes away its run at the end, all of it, and nothing else.
pub proof fn law_trimming_takes_the_run(text: Seq<char>, c: char, n: nat)
    requires
        text.len() > 0 ==> text.last() != c,
    ensures
        trimmed_of(text + Seq::new(n, |i: int| c), c) == text,
    decreases n,
{
    let run = Seq::new(n, |i: int| c);
    if n == 0 {
        assert(text + run =~= text);
    } else {
        assert((text + run).drop_last() =~= text + Seq::new((n - 1) as nat, |i: int| c));
        law_trimming_takes_the_run(text, c, (n - 1) as nat);
    }
}

/// A number is written digit by digit: its tens first, then its ones. Each of the ten digits is
/// written as itself.
pub proof fn law_numbers_are_written_by_tens(tens: nat, ones: nat)
    requires
        ones < 10,
    ensures
        tens > 0 ==> decimal(10 * tens + ones) == decimal(tens) + decimal(ones),
        decimal(ones) == seq![seq!['0', '1', '2', '3', '4', '5', '6', '7', '8', '9'][ones as int]],
        decimal_int(ones as int) == decimal(ones),
{
    let all = seq!['0', '1', '2', '3', '4', '5', '6', '7', '8', '9'];
    assert((10 * tens + ones) / 10 == tens && (10 * tens + ones) % 10 == ones) by (nonlinear_arith)
        requires
            ones < 10,
    ;
    if tens > 0 {
        assert(decimal(10 * tens + ones) =~= decimal(tens) + decimal(ones));
    }
    assert(digit(ones) == all[ones as int]) by {
        assert(digit(0) == '0' && digit(1) == '1' && digit(2) == '2' && digit(3) == '3' && digit(4)
            == '4' && digit(5) == '5' && digit(6) == '6' && digit(7) == '7' && digit(8) == '8'
            && digit(9) == '9');
    }
}

/// A negative number is written as a minus sign and the number without its sign; any other is
/// written as it is. Different numbers are written differently.
pub proof fn law_signed_numbers_are_told_apart(a: int, b: int)
    ensures
        a > 0 ==> decimal_int(-a) == seq!['-'] + decimal_int(a),
        a >= 0 ==> decimal_int(a) == decimal(a as nat),
        decimal_int(a) == decimal_int(b) ==> a == b,
{
    if decimal_int(a) == decimal_int(b) {
        lemma_decimal_digits(if a < 0 { (-a) as nat } else { a as nat });
        lemma_decimal_digits(if b < 0 { (-b) as nat } else { b as nat });
        if a < 0 && b < 0 {
            assert(decimal_int(a).skip(1) =~= decimal((-a) as nat));
            assert(decimal_int(b).skip(1) =~= decimal((-b) as nat));
            law_decimal_injective((-a) as nat, (-b) as nat);
        } else if a >= 0 && b >= 0 {
            law_decimal_injective(a as nat, b as nat);
        } else if a < 0 {
            assert(decimal_int(a)[0] == '-');
            assert(is_digit(decimal(b as nat)[0]));
        } else {
            assert(decimal_int(b)[0] == '-');
            assert(is_digit(decimal(a as nat)[0]));
        }
    }
}

/// One more digit behind a number makes it ten times as large and adds the digit, as long as it
/// fits 64 bits; a plus sign in front of it changes nothing.
pub proof fn law_numbers_are_read_by_tens(s: Seq<char>, c: char)
    requires
        s.len() > 0,
        forall|i: int| 0 <= i < s.len() ==> '0' <= #[trigger] s[i] && s[i] <= '9',
        '0' <= c && c <= '9',
    ensures
        parsed_u64(seq![c]) == Some((c as u32 - '0' as u32) as u64),
        parsed_u64(s) is Some ==> parsed_u64(s.push(c)) == {
            let value = 10 * parsed_u64(s)->0 + (c as u32 - '0' as u32);
            if value <= u64::MAX {
                Some(value as u64)
            } else {
                None
            }
        },
        parsed_u64(s) is None ==> parsed_u64(s.push(c)) is None,
        parsed_u64(seq!['+'] + s) == parsed_u64(s),
{
    let one = seq![c];
    assert(one.drop_last() =~= Seq::<char>::empty());
    assert(digits_value(one.drop_last()) == 0);
    assert(s.push(c).drop_last() =~= s);
    assert('0' <= s[0]);
    assert(unsigned_part(s) == s);
    assert(unsigned_part(s.push(c)) == s.push(c));
    assert(unsigned_part(one) == one);
    assert((seq!['+'] + s).skip(1) =~= s);
    assert forall|i: int| 0 <= i < s.len() implies is_digit(#[trigger] s[i]) by {
        assert('0' <= s[i] && s[i] <= '9');
    }
    assert forall|i: int| 0 <= i < s.push(c).len() implies is_digit(#[trigger] s.push(c)[i]) by {
        if i < s.len() {
            assert(is_digit(s[i]));
        }
    }
}

proof fn lemma_digits_are_in_range(c: char)
    ensures
        is_digit(c) <==> '0' <= c && c <= '9',
{
}

/// What holds anything but digits, behind one plus sign at most, is not a number, nor is a text
/// without digits.
pub proof fn law_other_texts_are_no_numbers(s: Seq<char>, i: int)
    requires
        0 <= i < s.len(),
        !('0' <= s[i] && s[i] <= '9'),
        i == 0 ==> s[0] != '+',
    ensures
        parsed_u64(s) is None,
        parsed_u64(Seq::empty()) is None,
        parsed_u64(seq!['+']) is None,
{
    let digits = unsigned_part(s);
    lemma_digits_are_in_range(s[i]);
    if s[0] == '+' {
        assert(digits[i - 1] == s[i]);
        assert(!is_digit(digits[i - 1]));
    } else {
        assert(!is_digit(digits[i]));
    }
    assert(seq!['+'].skip(1) =~= Seq::<char>::empty());
}

/// The contents of a list of strings are the strings' contents, in order.
pub proof fn law_texts_are_the_contents(v: Seq<String>, i: int)
    requires
        0 <= i < v.len(),
    ensures
        texts(v).len() == v.len(),
        texts(v)[i] == v[i]@,
{
}

/// White space is the space, the tabs, the characters that end a line or a page, and the other
/// spaces and separators that Unicode counts as white space.
pub proof fn law_white_space_is_unicode_white_space(c: char)
    ensures
        is_whitespace(c) <==> {
            ||| c == '\t' || c == '\n' || c == '\u{b}' || c == '\u{c}' || c == '\r' || c == ' '
            ||| c == '\u{85}' || c == '\u{a0}' || c == '\u{1680}'
            ||| '\u{2000}' <= c && c <= '\u{200a}'
            ||| c == '\u{2028}' || c == '\u{2029}' || c == '\u{202f}' || c == '\u{205f}'
            ||| c == '\u{3000}'
        },
{
}

} // verus!

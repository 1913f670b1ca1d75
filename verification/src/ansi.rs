//! ANSI escape sequences: removing them, and turning them into styled HTML.

use vstd::prelude::*;
use vstd::utf8::*;

verus! {

/// What is left of `data` when its escape sequences and control codes are removed.
pub uninterp spec fn ansi_stripped(data: Seq<u8>) -> Seq<u8>;

/// What `data` reads as when each malformed UTF-8 sequence is replaced by U+FFFD.
pub uninterp spec fn lossy_decoded(data: Seq<u8>) -> Seq<char>;

/// The styled HTML for `s`, or `None` where an escape sequence in it is malformed.
pub uninterp spec fn html_converted(s: Seq<char>) -> Option<Seq<char>>;

/// The error of `ansi_to_html::convert`, which nothing here looks into.
#[verifier::external_type_specification]
#[verifier::external_body]
pub struct ExConvertError(ansi_to_html::Error);

/// A character that a terminal shows, or a line feed: no other C0 control and no C1 control.
pub open spec fn is_plain_char(c: char) -> bool {
    c == '\n' || (0x20 <= c as u32 && !(0x80 <= c as u32 <= 0x9f))
}

/// Text in which every character is plain.
pub open spec fn is_plain(s: Seq<char>) -> bool {
    forall|i: int| 0 <= i < s.len() ==> is_plain_char(#[trigger] s[i])
}

/// `s` with the escape sequences and control codes removed.
pub open spec fn stripped(s: Seq<char>) -> Seq<char> {
    decode_utf8(ansi_stripped(encode_utf8(s)))
}

/// Whether plain text is left as it is when escape sequences are removed.
pub open spec fn keeps_plain(s: Seq<char>) -> bool {
    is_plain(s) ==> stripped(s) == s
}

/// Whether valid UTF-8 is decoded as it stands.
pub open spec fn keeps_valid(data: Seq<u8>) -> bool {
    valid_utf8(data) ==> lossy_decoded(data) == decode_utf8(data)
}

/// `strip_ansi_escapes::strip`. The result is a function of the bytes. It is made of whole
/// characters and line feeds, so it is valid UTF-8 and holds no C0 control but the line feed, and
/// no C1 control. Valid UTF-8 made of plain characters comes back as it is, so stripping the
/// result again changes nothing.
#[verifier::external_body]
fn strip_escapes(data: &[u8]) -> (r: Vec<u8>)
    ensures
        r@ == ansi_stripped(data@),
        valid_utf8(r@),
        is_plain(decode_utf8(r@)),
        ansi_stripped(r@) == r@,
        valid_utf8(data@) && is_plain(decode_utf8(data@)) ==> r@ == data@,
{
    strip_ansi_escapes::strip(data)
}

/// `String::from_utf8_lossy`. The result is a function of the bytes, and valid UTF-8 is decoded
/// as it stands.
#[verifier::external_body]
fn from_utf8_lossy(data: &[u8]) -> (r: String)
    ensures
        r@ == lossy_decoded(data@),
        valid_utf8(data@) ==> r@ == decode_utf8(data@),
{
    String::from_utf8_lossy(data).into_owned()
}

/// `ansi_to_html::convert`. The result is a function of the text. Text without an escape
/// character converts, and only the five characters that are special in HTML change.
#[verifier::external_body]
fn convert(s: &str) -> (r: Result<String, ansi_to_html::Error>)
    ensures
        r is Ok ==> html_converted(s@) == Some(r->Ok_0@),
        r is Err ==> html_converted(s@) is None,
        !s@.contains('\u{1b}') ==> r is Ok && r->Ok_0@ == html_text(s@),
{
    ansi_to_html::convert(s)
}

/// `c` as it is written in HTML text or in an attribute.
pub open spec fn html_char(c: char) -> Seq<char> {
    if c == '&' {
        seq!['&', 'a', 'm', 'p', ';']
    } else if c == '<' {
        seq!['&', 'l', 't', ';']
    } else if c == '>' {
        seq!['&', 'g', 't', ';']
    } else if c == '"' {
        seq!['&', 'q', 'u', 'o', 't', ';']
    } else if c == '\'' {
        seq!['&', '#', '3', '9', ';']
    } else {
        seq![c]
    }
}

/// `s` as it is written in HTML text or in an attribute.
pub open spec fn html_text(s: Seq<char>) -> Seq<char>
    decreases s.len(),
{
    if s.len() == 0 {
        Seq::empty()
    } else {
        html_text(s.drop_last()) + html_char(s.last())
    }
}

/// Decodes bytes as UTF-8; malformed sequences become U+FFFD.
pub fn decode_lossy(data: &[u8]) -> (r: String)
    ensures
        r@ == lossy_decoded(data@),
        valid_utf8(data@) ==> r@ == decode_utf8(data@),
{
    from_utf8_lossy(data)
}

/// Strips ANSI escape sequences from `s`.
///
/// The result is plain: of the C0 and C1 controls it holds only the line feed, so no escape
/// character and no carriage return. Plain text is left as it is, and stripping twice is
/// stripping once.
pub fn strip_ansi(s: &str) -> (r: String)
    ensures
        r@ == stripped(s@),
        is_plain(r@),
        !r@.contains('\u{1b}'),
        stripped(r@) == r@,
        is_plain(s@) ==> r@ == s@,
{
    broadcast use {vstd::utf8::encode_utf8_valid_utf8, vstd::utf8::encode_utf8_decode_utf8};

    let bytes = strip_escapes(s.as_bytes());
    proof {
        decode_utf8_encode_utf8(bytes@);
    }
    decode_lossy(bytes.as_slice())
}

/// The HTML for `s`: `html` where the conversion succeeded, and else `s` without its escapes.
pub open spec fn html_or_stripped(html: Option<Seq<char>>, s: Seq<char>) -> Seq<char> {
    match html {
        Some(h) => h,
        None => stripped(s),
    }
}

/// Takes the outcome of a conversion of `s` to HTML: a failed one falls back to plain text.
pub fn html_or_plain(html: Option<String>, s: &str) -> (r: String)
    ensures
        r@ == html_or_stripped(
            match html {
                Some(h) => Some(h@),
                None => None,
            },
            s@,
        ),
{
    match html {
        Some(h) => h,
        None => strip_ansi(s),
    }
}

/// Converts ANSI escape sequences to HTML with inline styles. Text whose escape sequences are
/// malformed is stripped instead.
pub fn ansi_to_html(s: &str) -> (r: String)
    ensures
        r@ == html_or_stripped(html_converted(s@), s@),
        !s@.contains('\u{1b}') ==> r@ == html_text(s@),
{
    match convert(s) {
        Ok(html) => html_or_plain(Some(html), s),
        Err(_) => html_or_plain(None, s),
    }
}

/// Text without escape sequences becomes HTML character by character: five characters have their
/// own escapes, and every other one is left as it is.
pub proof fn law_html_is_made_by_characters(a: Seq<char>, b: Seq<char>, c: char)
    ensures
        html_text(a + b) == html_text(a) + html_text(b),
        html_text(seq!['&']) == "&amp;"@,
        html_text(seq!['<']) == "&lt;"@,
        html_text(seq!['>']) == "&gt;"@,
        html_text(seq!['"']) == "&quot;"@,
        html_text(seq!['\'']) == "&#39;"@,
        c != '&' && c != '<' && c != '>' && c != '"' && c != '\'' ==> html_text(seq![c]) == seq![c],
    decreases b.len(),
{
    lemma_html_of_one('&');
    lemma_html_of_one('<');
    lemma_html_of_one('>');
    lemma_html_of_one('"');
    lemma_html_of_one('\'');
    lemma_html_of_one(c);
    reveal_strlit("&amp;");
    reveal_strlit("&lt;");
    reveal_strlit("&gt;");
    reveal_strlit("&quot;");
    reveal_strlit("&#39;");
    if b.len() == 0 {
        assert(a + b =~= a);
        assert(html_text(a) + html_text(b) =~= html_text(a));
    } else {
        law_html_is_made_by_characters(a, b.drop_last(), c);
        assert((a + b).drop_last() =~= a + b.drop_last());
        assert(html_text(a + b) =~= html_text(a) + html_text(b));
    }
}

proof fn lemma_html_of_one(c: char)
    ensures
        html_text(seq![c]) == html_char(c),
{
    assert(seq![c].drop_last() =~= Seq::<char>::empty());
    assert(html_text(Seq::empty()) =~= Seq::<char>::empty());
    assert(html_text(seq![c]) =~= html_char(c));
}

/// What is left of a text without its escape sequences is what the bytes of the text leave, read
/// as text. Text of line feeds and characters that are no control characters is plain, and where
/// plain text is kept it is left as it is.
pub proof fn law_plain_text_survives(s: Seq<char>, c: char)
    ensures
        stripped(s) == decode_utf8(ansi_stripped(encode_utf8(s))),
        is_plain(Seq::empty()),
        is_plain(s.push(c)) <==> is_plain(s) && (c == '\n' || (' ' <= c && !('\u{80}' <= c && c
            <= '\u{9f}'))),
        keeps_plain(s) && is_plain(s) ==> stripped(s) == s,
        !is_plain(s) ==> keeps_plain(s),
{
    let t = s.push(c);
    assert(t[s.len() as int] == c);
    if is_plain(t) {
        assert forall|i: int| 0 <= i < s.len() implies is_plain_char(#[trigger] s[i]) by {
            assert(t[i] == s[i]);
        }
    }
}

/// Where valid text is kept, the bytes of a text are read as that text.
pub proof fn law_valid_text_survives(s: Seq<char>, data: Seq<u8>)
    ensures
        keeps_valid(encode_utf8(s)) ==> lossy_decoded(encode_utf8(s)) == s,
        keeps_valid(data) && valid_utf8(data) ==> lossy_decoded(data) == decode_utf8(data),
        !valid_utf8(data) ==> keeps_valid(data),
{
    encode_utf8_valid_utf8(s);
    encode_utf8_decode_utf8(s);
}

/// Text that could be styled is shown styled, and other text without its escape sequences.
pub proof fn law_styled_text_is_preferred(html: Seq<char>, s: Seq<char>)
    ensures
        html_or_stripped(Some(html), s) == html,
        html_or_stripped(None, s) == stripped(s),
{
}

} // verus!

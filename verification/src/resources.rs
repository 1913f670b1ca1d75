//! Session output as addressable resources.

use vstd::prelude::*;

use crate::protocol::{err, resource_not_found, ErrorData};
use crate::runner::{resource_uri, Runner};
use crate::session::Session;
use crate::text::{chars_of, owned, push_chars, same_text};

verus! {

/// The scheme in front of every resource address.
pub const SCHEME: &'static str = "session://";

/// Where `c` last stands in `s`, or `-1`.
pub open spec fn last_index_of(s: Seq<char>, c: char) -> int
    decreases s.len(),
{
    if s.len() == 0 {
        -1
    } else if s.last() == c {
        s.len() - 1
    } else {
        last_index_of(s.drop_last(), c)
    }
}

/// Whether `s` starts with `prefix`.
pub open spec fn starts_with(s: Seq<char>, prefix: Seq<char>) -> bool {
    prefix.len() <= s.len() && s.take(prefix.len() as int) == prefix
}

/// The session and the stream that an address names: what stands before and after the last
/// slash behind the scheme.
pub open spec fn uri_parts(uri: Seq<char>) -> Option<(Seq<char>, Seq<char>)> {
    let rest = uri.skip(SCHEME@.len() as int);
    if starts_with(uri, SCHEME@) && last_index_of(rest, '/') >= 0 {
        let k = last_index_of(rest, '/');
        Some((rest.take(k), rest.skip(k + 1)))
    } else {
        None
    }
}

/// What is said of an address that names no resource.
pub open spec fn uri_error(uri: Seq<char>) -> Seq<char> {
    if starts_with(uri, SCHEME@) {
        "Invalid resource URI: "@ + uri
    } else {
        "Unknown resource URI: "@ + uri
    }
}

/// Takes a resource address apart: `session://{id}/{stream}`. The id may hold slashes.
pub fn parse_resource_uri(uri: &str) -> (r: Result<(String, String), String>)
    ensures
        match r {
            Ok((id, stream)) => uri_parts(uri@) == Some((id@, stream@)),
            Err(message) => uri_parts(uri@) is None && message@ == uri_error(uri@),
        },
{
    let v = chars_of(uri);
    let p = chars_of(SCHEME);
    let mut matched: bool = v.len() >= p.len();
    let mut i: usize = 0;
    while i < p.len() && matched
        invariant
            v@ == uri@,
            p@ == SCHEME@,
            i <= p@.len(),
            matched ==> p@.len() <= v@.len() && (forall|j: int| 0 <= j < i ==> v@[j] == p@[j]),
            !matched ==> !starts_with(uri@, SCHEME@),
        decreases p@.len() - i,
    {
        if v[i] != p[i] {
            matched = false;
        }
        i += 1;
    }
    if !matched {
        let mut message = String::new();
        message.append("Unknown resource URI: ");
        message.append(uri);
        return Err(message);
    }
    assert(uri@.take(p@.len() as int) =~= p@);
    let ghost rest = uri@.skip(SCHEME@.len() as int);
    let start: usize = p.len();
    let mut k: usize = v.len();
    assert(rest.take(k - start) =~= rest);
    while k > start && v[k - 1] != '/'
        invariant
            v@ == uri@,
            start == SCHEME@.len(),
            start <= k <= v@.len(),
            rest == uri@.skip(SCHEME@.len() as int),
            last_index_of(rest, '/') == last_index_of(rest.take(k - start), '/'),
        decreases k,
    {
        assert(rest.take(k - start).drop_last() =~= rest.take(k - 1 - start));
        k -= 1;
    }
    if k == start {
        let mut message = String::new();
        message.append("Invalid resource URI: ");
        message.append(uri);
        return Err(message);
    }
    let mut id = String::new();
    push_chars(&mut id, &v, start, k - 1);
    let mut stream = String::new();
    push_chars(&mut stream, &v, k, v.len());
    Ok((id, stream))
}

/// A kind of resource.
pub struct ResourceTemplate {
    pub uri_template: String,
    pub name: String,
    pub title: String,
    pub description: String,
    pub mime_type: String,
}

impl ResourceTemplate {
    /// Whether this is the plain text resource with that address, name, title and description.
    pub open spec fn is(
        self,
        uri_template: Seq<char>,
        name: Seq<char>,
        title: Seq<char>,
        description: Seq<char>,
    ) -> bool {
        &&& self.uri_template@ == uri_template
        &&& self.name@ == name
        &&& self.title@ == title
        &&& self.description@ == description
        &&& self.mime_type@ == "text/plain"@
    }
}

fn template(uri_template: &str, name: &str, title: &str, description: &str) -> (r:
    ResourceTemplate)
    ensures
        r.is(uri_template@, name@, title@, description@),
{
    ResourceTemplate {
        uri_template: owned(uri_template),
        name: owned(name),
        title: owned(title),
        description: owned(description),
        mime_type: owned("text/plain"),
    }
}

/// A resource: the output of a session on one stream.
pub struct Resource {
    pub uri: String,
    pub name: String,
}

impl Resource {
    /// Whether this is the stream of that session. `suffix` names the stream in the address and
    /// `word` in the name.
    pub open spec fn is(self, id: Seq<char>, suffix: Seq<char>, word: Seq<char>) -> bool {
        &&& self.uri@ == resource_uri(id, suffix)
        &&& self.name@ == "Session "@ + id + word
    }
}

fn resource(id: &str, suffix: &str, word: &str) -> (r: Resource)
    ensures
        r.is(id@, suffix@, word@),
{
    let mut uri = owned(SCHEME);
    uri.append(id);
    uri.append(suffix);
    let mut name = owned("Session ");
    name.append(id);
    name.append(word);
    Resource { uri, name }
}

/// How many resources a session has: one for each stream that is logged.
pub open spec fn resource_count<P, T>(session: Session<P, T>) -> nat {
    if session.stderr_path is Some {
        2
    } else {
        1
    }
}

/// Whether `list` holds the resources of those sessions, session by session.
pub open spec fn are_resources<P, T>(
    list: Seq<Resource>,
    ids: Seq<Seq<char>>,
    sessions: Map<Seq<char>, Session<P, T>>,
) -> bool
    decreases ids.len(),
{
    if ids.len() == 0 {
        list.len() == 0
    } else {
        let id = ids.last();
        let n = resource_count(sessions[id]);
        &&& list.len() >= n
        &&& list[list.len() - n].is(id, "/stdout"@, " stdout"@)
        &&& n == 2 ==> list.last().is(id, "/stderr"@, " stderr"@)
        &&& are_resources(list.take(list.len() - n), ids.drop_last(), sessions)
    }
}

/// The log file that an address names, or why it names none.
pub open spec fn resource_path<P, T>(
    uri: Seq<char>,
    sessions: Map<Seq<char>, Session<P, T>>,
) -> Result<Seq<char>, Seq<char>> {
    match uri_parts(uri) {
        None => Err(uri_error(uri)),
        Some((id, stream)) => {
            if !sessions.contains_key(id) {
                Err("Session not found: "@ + id)
            } else if stream == "stdout"@ {
                Ok(sessions[id].stdout_path@)
            } else if stream == "stderr"@ {
                match sessions[id].stderr_path {
                    Some(path) => Ok(path@),
                    None => Err("stderr not split for this session"@),
                }
            } else {
                Err("Unknown stream: "@ + stream)
            }
        },
    }
}

/// Answers a request for a resource with what its log file holds, or why it could not be read.
pub fn resource_contents(content: Result<String, String>) -> (r: Result<String, ErrorData>)
    ensures
        match content {
            Ok(text) => r is Ok && r->Ok_0 == text,
            Err(reason) => r is Err && r->Err_0.is_internal(reason@),
        },
{
    match content {
        Ok(text) => Ok(text),
        Err(reason) => Err(err(reason.as_str())),
    }
}

impl<P, T> Runner<P, T> {
    /// The kinds of resources that there are.
    pub fn list_resource_templates(&self) -> (r: Vec<ResourceTemplate>)
        ensures
            r@.len() == 2,
            r@[0].is(
                "session://{session_id}/stdout"@,
                "Session stdout"@,
                "Session stdout output"@,
                "Full stdout output for a command session"@,
            ),
            r@[1].is(
                "session://{session_id}/stderr"@,
                "Session stderr"@,
                "Session stderr output"@,
                "Full stderr output for a command session (only if split_stderr was true)"@,
            ),
    {
        let mut r: Vec<ResourceTemplate> = Vec::new();
        r.push(
            template(
                "session://{session_id}/stdout",
                "Session stdout",
                "Session stdout output",
                "Full stdout output for a command session",
            ),
        );
        r.push(
            template(
                "session://{session_id}/stderr",
                "Session stderr",
                "Session stderr output",
                "Full stderr output for a command session (only if split_stderr was true)",
            ),
        );
        r
    }

    /// The resources that there are, session by session.
    pub fn list_resources(&self) -> (r: Vec<Resource>)
        requires
            self.wf(),
        ensures
            are_resources(r@, self.sessions.ids(), self.sessions@),
    {
        let mut r: Vec<Resource> = Vec::new();
        let mut i: usize = 0;
        let ghost ids = self.sessions.ids();
        while i < self.sessions.len()
            invariant
                self.wf(),
                ids == self.sessions.ids(),
                i <= ids.len(),
                are_resources(r@, ids.take(i as int), self.sessions@),
            decreases ids.len() - i,
        {
            let ghost before = r@;
            let (id, session) = self.sessions.at(i);
            r.push(resource(id, "/stdout", " stdout"));
            if session.stderr_path.is_some() {
                r.push(resource(id, "/stderr", " stderr"));
            }
            assert(ids.take(i + 1).drop_last() =~= ids.take(i as int));
            assert(r@.take(r@.len() - resource_count(*session)) =~= before);
            i += 1;
        }
        assert(ids.take(i as int) =~= ids);
        r
    }

    /// A request for a resource: the log file that holds it.
    pub fn read_resource(&self, uri: &str) -> (r: Result<String, ErrorData>)
        requires
            self.wf(),
        ensures
            match resource_path(uri@, self.sessions@) {
                Ok(path) => r is Ok && r->Ok_0@ == path,
                Err(message) => r is Err && r->Err_0.is_not_found(message),
            },
    {
        let (id, stream) = match parse_resource_uri(uri) {
            Ok(parts) => parts,
            Err(message) => {
                return Err(resource_not_found(message.as_str()));
            },
        };
        match self.sessions.get(id.as_str()) {
            None => {
                let mut message = owned("Session not found: ");
                message.append(id.as_str());
                Err(resource_not_found(message.as_str()))
            },
            Some(session) => {
                if same_text(stream.as_str(), "stdout") {
                    Ok(owned(session.stdout_path.as_str()))
                } else if same_text(stream.as_str(), "stderr") {
                    match &session.stderr_path {
                        Some(path) => Ok(owned(path.as_str())),
                        None => Err(resource_not_found("stderr not split for this session")),
                    }
                } else {
                    let mut message = owned("Unknown stream: ");
                    message.append(stream.as_str());
                    Err(resource_not_found(message.as_str()))
                }
            },
        }
    }
}

proof fn lemma_last_index(s: Seq<char>, t: Seq<char>, c: char)
    requires
        !t.contains(c),
    ensures
        last_index_of(s.push(c) + t, c) == s.len(),
    decreases t.len(),
{
    if t.len() > 0 {
        assert((s.push(c) + t).drop_last() =~= s.push(c) + t.drop_last());
        assert(!t.drop_last().contains(c));
        lemma_last_index(s, t.drop_last(), c);
    }
}

/// Taking the address of a session's stream apart gives the session and the stream, whatever the
/// id is.
pub proof fn law_resource_uri_parts(id: Seq<char>)
    ensures
        uri_parts(resource_uri(id, "/stdout"@)) == Some((id, "stdout"@)),
        uri_parts(resource_uri(id, "/stderr"@)) == Some((id, "stderr"@)),
{
    reveal_strlit("session://");
    reveal_strlit("/stdout");
    reveal_strlit("/stderr");
    reveal_strlit("stdout");
    reveal_strlit("stderr");
    assert("/stdout"@ =~= seq!['/'] + "stdout"@);
    assert("/stderr"@ =~= seq!['/'] + "stderr"@);
    lemma_uri_parts(id, "/stdout"@, "stdout"@);
    lemma_uri_parts(id, "/stderr"@, "stderr"@);
}

proof fn lemma_uri_parts(id: Seq<char>, suffix: Seq<char>, stream: Seq<char>)
    requires
        suffix == seq!['/'] + stream,
        !stream.contains('/'),
    ensures
        uri_parts(resource_uri(id, suffix)) == Some((id, stream)),
{
    let uri = resource_uri(id, suffix);
    let rest = uri.skip(SCHEME@.len() as int);
    assert(uri.take(SCHEME@.len() as int) =~= SCHEME@);
    assert(rest =~= id.push('/') + stream);
    lemma_last_index(id, stream, '/');
}

proof fn lemma_listed<P, T>(
    list: Seq<Resource>,
    ids: Seq<Seq<char>>,
    sessions: Map<Seq<char>, Session<P, T>>,
    i: int,
)
    requires
        are_resources(list, ids, sessions),
        0 <= i < list.len(),
    ensures
        exists|id: Seq<char>| #[trigger]
            ids.contains(id) && (list[i].uri@ == resource_uri(id, "/stdout"@) || (
            sessions[id].stderr_path is Some && list[i].uri@ == resource_uri(id, "/stderr"@))),
    decreases ids.len(),
{
    let last = ids.last();
    let n = resource_count(sessions[last]);
    assert(ids.contains(last));
    if i < list.len() - n {
        let before = list.take(list.len() - n);
        lemma_listed(before, ids.drop_last(), sessions, i);
        let id = choose|id: Seq<char>| #[trigger]
            ids.drop_last().contains(id) && (before[i].uri@ == resource_uri(id, "/stdout"@) || (
            sessions[id].stderr_path is Some && before[i].uri@ == resource_uri(id, "/stderr"@)));
        let k = choose|k: int| 0 <= k < ids.drop_last().len() && ids.drop_last()[k] == id;
        assert(ids.contains(id));
    }
}

/// Every resource that is listed can be read.
pub proof fn law_listed_resources_are_readable<P, T>(
    list: Seq<Resource>,
    ids: Seq<Seq<char>>,
    sessions: Map<Seq<char>, Session<P, T>>,
    i: int,
)
    requires
        are_resources(list, ids, sessions),
        forall|id: Seq<char>| ids.contains(id) ==> #[trigger] sessions.contains_key(id),
        0 <= i < list.len(),
    ensures
        resource_path(list[i].uri@, sessions) is Ok,
{
    lemma_listed(list, ids, sessions, i);
    let id = choose|id: Seq<char>| #[trigger]
        ids.contains(id) && (list[i].uri@ == resource_uri(id, "/stdout"@) || (
        sessions[id].stderr_path is Some && list[i].uri@ == resource_uri(id, "/stderr"@)));
    law_resource_uri_parts(id);
    reveal_strlit("stdout");
    reveal_strlit("stderr");
}

/// A resource address is a session's id and one of its streams behind the scheme: the stream is
/// what follows the last slash, and the id may hold slashes. Every other address has no parts.
pub proof fn law_address_is_taken_apart(id: Seq<char>, stream: Seq<char>, other: Seq<char>)
    requires
        !stream.contains('/'),
    ensures
        uri_parts("session://"@ + id + "/"@ + stream) == Some((id, stream)),
        uri_parts("session://"@ + stream) is None,
        (forall|rest: Seq<char>| other != #[trigger] ("session://"@ + rest)) ==> uri_parts(other)
            is None,
{
    reveal_strlit("/");
    let suffix = seq!['/'] + stream;
    lemma_uri_parts(id, suffix, stream);
    assert(resource_uri(id, suffix) =~= "session://"@ + id + "/"@ + stream);
    let bare = "session://"@ + stream;
    assert(bare.skip(SCHEME@.len() as int) =~= stream);
    lemma_no_index(stream, '/');
    if starts_with(other, SCHEME@) {
        assert(other =~= "session://"@ + other.skip(SCHEME@.len() as int));
    }
}

proof fn lemma_no_index(s: Seq<char>, c: char)
    requires
        !s.contains(c),
    ensures
        last_index_of(s, c) == -1,
    decreases s.len(),
{
    if s.len() > 0 {
        assert(s.contains(s.last()));
        assert(!s.drop_last().contains(c)) by {
            assert forall|i: int| 0 <= i < s.drop_last().len() implies s.drop_last()[i] != c by {
                assert(s.contains(s[i]));
            }
        }
        lemma_no_index(s.drop_last(), c);
    }
}

/// An address of the scheme that cannot be taken apart is invalid, and one of another scheme is
/// unknown; both are named in the answer.
pub proof fn law_refused_address_is_named(rest: Seq<char>, other: Seq<char>)
    ensures
        uri_error("session://"@ + rest) == "Invalid resource URI: session://"@ + rest,
        (forall|r: Seq<char>| other != #[trigger] ("session://"@ + r)) ==> uri_error(other)
            == "Unknown resource URI: "@ + other,
{
    reveal_strlit("session://");
    reveal_strlit("Invalid resource URI: ");
    reveal_strlit("Invalid resource URI: session://");
    let uri = "session://"@ + rest;
    assert(uri.take(SCHEME@.len() as int) =~= SCHEME@);
    assert("Invalid resource URI: session://"@ =~= "Invalid resource URI: "@ + "session://"@);
    assert("Invalid resource URI: "@ + uri =~= "Invalid resource URI: session://"@ + rest);
    if starts_with(other, SCHEME@) {
        assert(other =~= "session://"@ + other.skip(SCHEME@.len() as int));
    }
}

/// The resource of a stream is its log. There is none where there is no such session, where
/// standard error has no log of its own, and where there is no such stream.
pub proof fn law_resource_is_the_log<P, T>(
    id: Seq<char>,
    stream: Seq<char>,
    sessions: Map<Seq<char>, Session<P, T>>,
)
    requires
        !stream.contains('/'),
    ensures
        ({
            let r = resource_path("session://"@ + id + "/"@ + stream, sessions);
            let known = sessions.contains_key(id);
            &&& !known ==> r == Err::<Seq<char>, _>("Session not found: "@ + id)
            &&& known && stream == "stdout"@ ==> r == Ok::<_, Seq<char>>(
                sessions[id].stdout_path@,
            )
            &&& known && stream == "stderr"@ && sessions[id].stderr_path is Some ==> r == Ok::<
                _,
                Seq<char>,
            >(sessions[id].stderr_path->0@)
            &&& known && stream == "stderr"@ && sessions[id].stderr_path is None ==> r == Err::<
                Seq<char>,
                _,
            >("stderr not split for this session"@)
            &&& known && stream != "stdout"@ && stream != "stderr"@ ==> r == Err::<Seq<char>, _>(
                "Unknown stream: "@ + stream,
            )
        }),
{
    law_address_is_taken_apart(id, stream, Seq::empty());
    reveal_strlit("stdout");
    reveal_strlit("stderr");
    assert("stdout"@[3] == 'o');
    assert("stderr"@[3] == 'e');
}

/// An address that cannot be taken apart has no resource.
pub proof fn law_refused_address_has_no_resource<P, T>(
    uri: Seq<char>,
    sessions: Map<Seq<char>, Session<P, T>>,
)
    requires
        uri_parts(uri) is None,
    ensures
        resource_path(uri, sessions) == Err::<Seq<char>, _>(uri_error(uri)),
{
}

/// The list of resources has those of each session in the order of the sessions: its standard
/// output, and behind it its standard error where that has a log of its own.
pub proof fn law_each_session_adds_its_resources<P, T>(
    list: Seq<Resource>,
    added: Seq<Resource>,
    ids: Seq<Seq<char>>,
    id: Seq<char>,
    sessions: Map<Seq<char>, Session<P, T>>,
)
    requires
        added.len() == if sessions[id].stderr_path is Some {
            2nat
        } else {
            1
        },
    ensures
        are_resources(list, Seq::empty(), sessions) <==> list.len() == 0,
        are_resources(list + added, ids.push(id), sessions) <==> {
            &&& are_resources(list, ids, sessions)
            &&& added[0].uri@ == "session://"@ + id + "/stdout"@
            &&& added[0].name@ == "Session "@ + id + " stdout"@
            &&& sessions[id].stderr_path is Some ==> {
                &&& added[1].uri@ == "session://"@ + id + "/stderr"@
                &&& added[1].name@ == "Session "@ + id + " stderr"@
            }
        },
{
    assert(ids.push(id).drop_last() =~= ids);
    let all = list + added;
    assert(all.take(all.len() - added.len()) =~= list);
}

/// A template is described by its five texts.
pub proof fn law_template_has_its_texts(
    template: ResourceTemplate,
    uri_template: Seq<char>,
    name: Seq<char>,
    title: Seq<char>,
    description: Seq<char>,
)
    requires
        template.is(uri_template, name, title, description),
    ensures
        template.uri_template@ == uri_template,
        template.name@ == name,
        template.title@ == title,
        template.description@ == description,
        template.mime_type@ == "text/plain"@,
{
}

} // verus!

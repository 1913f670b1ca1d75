//! The monitoring interface: its pages and its answers.

use vstd::prelude::*;

use crate::ansi::{keeps_plain, keeps_valid, lossy_decoded};
use crate::control::{status_text, status_word};
use crate::html::{escaped, html_escape};
use crate::input::{line_bytes, typed_line, WriteOutcome};
use crate::output::OutputStream;
use crate::runner::Runner;
use crate::session::{remove_session, Cleanup, ExitStatus, Session};
use crate::stream::{present_content, presented, AnsiMode};
use crate::text::owned;

verus! {

/// The index page up to the list of sessions.
pub const INDEX_TOP: &'static str = r##"<!DOCTYPE html><html><head><title>MCP Runner</title>
<style>
body { font-family: -apple-system, sans-serif; margin: 20px; background: #1a1a1a; color: #ddd; }
a { color: #6af; }
table { border-collapse: collapse; width: 100%; }
th, td { text-align: left; padding: 8px 12px; border-bottom: 1px solid #333; }
th { color: #999; font-size: 0.85em; text-transform: uppercase; }
.running { color: #5b5; }
.exited { color: #999; }
.failed { color: #e55; }
button { background: #433; color: #e88; border: 1px solid #644; padding: 4px 10px; border-radius: 3px; cursor: pointer; }
button:hover { background: #544; }
</style></head><body>
<h1>MCP Runner</h1>"##;

/// The head of the table of sessions.
pub const TABLE_TOP: &'static str = r##"<table><tr><th>ID</th><th>Label</th><th>Command</th><th>Status</th><th></th></tr>"##;

/// A row of the table up to the id in the link to the session.
pub const ROW_LINK: &'static str = r##"<tr>
<td><a href="/session/"##;

/// From there to the id that is shown.
pub const ROW_ID: &'static str = r##"">"##;

/// From there to the label.
pub const ROW_LABEL: &'static str = r##"</a></td>
<td>"##;

/// From there to the command.
pub const ROW_COMMAND: &'static str = r##"</td>
<td><code>"##;

/// From there to the class of the status.
pub const ROW_CLASS: &'static str = r##"</code></td>
<td class=""##;

/// From there to the status.
pub const ROW_STATUS: &'static str = r##"">"##;

/// From there to the id in the button that deletes the session.
pub const ROW_DELETE: &'static str = r##"</td>
<td><button onclick="fetch('/session/"##;

/// The rest of the row.
pub const ROW_END: &'static str = r##"',{method:'DELETE'}).then(()=>location.reload())">delete</button></td>
</tr>"##;

/// The page of a session up to its title.
pub const PAGE_TITLE: &'static str = r##"<!DOCTYPE html>
<html>
<head>
    <title>"##;

/// From there to the label.
pub const PAGE_STYLE: &'static str = r##" - MCP Runner</title>
    <style>
        body { font-family: monospace; margin: 0; background: #1a1a1a; color: #ddd; display: flex; flex-direction: column; height: 100vh; }
        #header { padding: 8px 12px; background: #222; border-bottom: 1px solid #333; display: flex; align-items: center; gap: 12px; flex-shrink: 0; }
        #header a { color: #6af; text-decoration: none; }
        #header .cmd { color: #999; font-size: 0.9em; }
        #status { padding: 2px 8px; border-radius: 3px; font-size: 0.85em; }
        .live { background: #253; color: #5b5; }
        .done { background: #332; color: #a85; }
        #output { flex: 1; overflow-y: auto; padding: 8px 12px; white-space: pre-wrap; word-wrap: break-word; }
        #output .line { margin: 0; }
        #input-bar { display: flex; padding: 8px; background: #222; border-top: 1px solid #333; flex-shrink: 0; }
        #input-bar input { flex: 1; background: #111; color: #eee; border: 1px solid #444; padding: 6px 10px; font-family: monospace; font-size: 1em; }
        #input-bar button { background: #335; color: #8bf; border: 1px solid #446; padding: 6px 14px; margin-left: 6px; cursor: pointer; }
    </style>
</head>
<body>
    <div id="header">
        <a href="/">&larr; Sessions</a>
        <strong>"##;

/// From there to the command.
pub const PAGE_COMMAND: &'static str = r##"</strong>
        <span class="cmd">"##;

/// From there to the class of the status.
pub const PAGE_CLASS: &'static str = r##"</span>
        <span id="status" class=""##;

/// From there to the status.
pub const PAGE_STATUS: &'static str = r##"">"##;

/// From there to the state of the input field.
pub const PAGE_INPUT: &'static str = r##"</span>
    </div>
    <div id="output"></div>
    <form id="input-bar" onsubmit="sendInput(event)">
        <input type="text" id="cmd-input" placeholder="Type input and press Enter..." autocomplete="off" "##;

/// From there to the state of the button.
pub const PAGE_BUTTON: &'static str = r##">
        <button type="submit" "##;

/// From there to the id in the address of the stream.
pub const PAGE_SCRIPT: &'static str = r##">Send</button>
    </form>
    <script>
        const output = document.getElementById('output');
        const statusEl = document.getElementById('status');
        const eventSource = new EventSource('/session/"##;

/// From there to the id in the address that takes input.
pub const PAGE_SEND: &'static str = r##"/stream?from=0');

        eventSource.onmessage = function(e) {
            const line = document.createElement('div');
            line.className = 'line';
            line.innerHTML = e.data;
            output.appendChild(line);
            output.scrollTop = output.scrollHeight;
        };

        eventSource.addEventListener('done', function(e) {
            statusEl.textContent = 'exited';
            statusEl.className = 'done';
            eventSource.close();
            document.getElementById('cmd-input').disabled = true;
        });

        eventSource.onerror = function() {
            statusEl.textContent = 'disconnected';
            statusEl.className = 'done';
        };

        function sendInput(e) {
            e.preventDefault();
            const input = document.getElementById('cmd-input');
            const text = input.value;
            if (!text && text !== '') return;
            fetch('/session/"##;

/// The rest of the page.
pub const PAGE_END: &'static str = r##"/input', {
                method: 'POST',
                headers: {'Content-Type': 'application/x-www-form-urlencoded'},
                body: 'input=' + encodeURIComponent(text)
            });
            input.value = '';
        }
    </script>
</body>
</html>"##;

/// The input form up to the id in its title.
pub const FORM_TITLE: &'static str = r##"<!DOCTYPE html><html><head><title>Input - "##;

/// From there to the id in its heading.
pub const FORM_HEADING: &'static str = r##"</title></head><body>
<h2>Input for session "##;

/// From there to the id in the address that takes input.
pub const FORM_ACTION: &'static str = r##"</h2>
<form method="post" action="/session/"##;

/// From there to the id in the link to the session.
pub const FORM_LINK: &'static str = r##"/input">
<textarea name="input" rows="6" style="width:100%;padding:8px;box-sizing:border-box;"></textarea>
<br><br><button type="submit" style="padding:8px 16px;">Send</button>
</form>
<p><a href="/session/"##;

/// The rest of the form.
pub const FORM_END: &'static str = r##"">Back to session</a> | <a href="/">Sessions</a></p>
</body></html>"##;

/// What a request to the monitoring interface is answered.
pub struct HttpReply {
    pub status: u16,
    pub body: String,
}

impl HttpReply {
    /// Whether this is the answer with that status and text.
    pub open spec fn is(self, status: u16, body: Seq<char>) -> bool {
        self.status == status && self.body@ == body
    }
}

fn reply(status: u16, body: &str) -> (r: HttpReply)
    ensures
        r.is(status, body@),
{
    HttpReply { status, body: owned(body) }
}

/// How the status of a session is coloured: a session that ended with an exit code other than
/// zero has failed.
pub open spec fn status_class<P, T>(session: Session<P, T>) -> Seq<char> {
    if session.process is Some {
        "running"@
    } else if session.exit_code is Some && session.exit_code->0 != 0 {
        "failed"@
    } else {
        "exited"@
    }
}

fn class_of<P, T>(session: &Session<P, T>) -> (r: &'static str)
    ensures
        r@ == status_class(*session),
{
    if session.process.is_some() {
        return "running";
    }
    match session.exit_code {
        Some(code) => if code != 0 {
            "failed"
        } else {
            "exited"
        },
        None => "exited",
    }
}

/// The label, or another text where there is none.
pub open spec fn label_or(label: Option<String>, other: Seq<char>) -> Seq<char> {
    match label {
        Some(l) => l@,
        None => other,
    }
}

fn shown_label<'a>(label: &'a Option<String>, other: &'a str) -> (r: &'a str)
    ensures
        r@ == label_or(*label, other@),
{
    match label {
        Some(l) => l.as_str(),
        None => other,
    }
}

/// A session as a row of the index page.
pub open spec fn index_row<P, T>(id: Seq<char>, session: Session<P, T>) -> Seq<char> {
    ROW_LINK@ + id + ROW_ID@ + id + ROW_LABEL@ + label_or(session.label, "-"@) + ROW_COMMAND@
        + escaped(session.command@) + ROW_CLASS@ + status_class(session) + ROW_STATUS@
        + status_word(session) + ROW_DELETE@ + id + ROW_END@
}

/// Those sessions as rows of the index page.
pub open spec fn index_rows<P, T>(
    ids: Seq<Seq<char>>,
    sessions: Map<Seq<char>, Session<P, T>>,
) -> Seq<char>
    decreases ids.len(),
{
    if ids.len() == 0 {
        Seq::empty()
    } else {
        index_rows(ids.drop_last(), sessions) + index_row(ids.last(), sessions[ids.last()])
    }
}

fn push_row<P, T>(out: &mut String, id: &str, session: &Session<P, T>)
    ensures
        final(out)@ == old(out)@ + index_row(id@, *session),
{
    let command = html_escape(session.command.as_str());
    let status = status_text(session);
    out.append(ROW_LINK);
    out.append(id);
    out.append(ROW_ID);
    out.append(id);
    out.append(ROW_LABEL);
    out.append(shown_label(&session.label, "-"));
    out.append(ROW_COMMAND);
    out.append(command.as_str());
    out.append(ROW_CLASS);
    out.append(class_of(session));
    out.append(ROW_STATUS);
    out.append(status.as_str());
    out.append(ROW_DELETE);
    out.append(id);
    out.append(ROW_END);
}

/// Where the feed of a stream stands below the address of its session.
pub open spec fn feed_of(stream: OutputStream) -> Seq<char> {
    match stream {
        OutputStream::Stdout => ""@,
        OutputStream::Stderr => "/live/stderr"@,
    }
}

/// The live page of a session's stream.
pub open spec fn session_page<P, T>(
    id: Seq<char>,
    session: Session<P, T>,
    stream: OutputStream,
) -> Seq<char> {
    let label = escaped(label_or(session.label, id));
    let disabled = if session.process is Some {
        ""@
    } else {
        "disabled"@
    };
    PAGE_TITLE@ + label + PAGE_STYLE@ + label + PAGE_COMMAND@ + escaped(session.command@)
        + PAGE_CLASS@ + (if session.process is Some {
        "live"@
    } else {
        "done"@
    }) + PAGE_STATUS@ + (if session.process is Some {
        "running"@
    } else {
        "exited"@
    }) + PAGE_INPUT@ + disabled + PAGE_BUTTON@ + disabled + PAGE_SCRIPT@ + id + feed_of(
        stream,
    ) + PAGE_SEND@ + id + PAGE_END@
}

fn live_page<P, T>(id: &str, session: &Session<P, T>, stream: OutputStream) -> (r: String)
    ensures
        r@ == session_page(id@, *session, stream),
{
    let label = html_escape(shown_label(&session.label, id));
    let command = html_escape(session.command.as_str());
    let running = session.process.is_some();
    let disabled = if running {
        ""
    } else {
        "disabled"
    };
    let mut r = owned(PAGE_TITLE);
    r.append(label.as_str());
    r.append(PAGE_STYLE);
    r.append(label.as_str());
    r.append(PAGE_COMMAND);
    r.append(command.as_str());
    r.append(PAGE_CLASS);
    r.append(
        if running {
            "live"
        } else {
            "done"
        },
    );
    r.append(PAGE_STATUS);
    r.append(
        if running {
            "running"
        } else {
            "exited"
        },
    );
    r.append(PAGE_INPUT);
    r.append(disabled);
    r.append(PAGE_BUTTON);
    r.append(disabled);
    r.append(PAGE_SCRIPT);
    r.append(id);
    r.append(
        match stream {
            OutputStream::Stdout => "",
            OutputStream::Stderr => "/live/stderr",
        },
    );
    r.append(PAGE_SEND);
    r.append(id);
    r.append(PAGE_END);
    r
}

/// A log on a page of its own.
pub struct LogPage {
    pub body: String,
    /// Whether the body is HTML. Else it is plain text.
    pub is_html: bool,
}

/// What stands on the page of a log: styled lines as they are, or plain text.
pub open spec fn log_page(log: Seq<u8>, mode: AnsiMode) -> Seq<char> {
    let text = presented(lossy_decoded(log), mode);
    match mode {
        AnsiMode::Html => "<pre>"@ + text + "</pre>"@,
        _ => text,
    }
}

/// The page of a log.
pub fn http_log(log: &[u8], mode: AnsiMode) -> (r: LogPage)
    ensures
        r.body@ == log_page(log@, mode),
        r.is_html == (mode == AnsiMode::Html),
        keeps_valid(log@),
        mode == AnsiMode::Strip ==> keeps_plain(lossy_decoded(log@)),
{
    let text = present_content(log, mode);
    match mode {
        AnsiMode::Html => {
            let mut body = owned("<pre>");
            body.append(text.as_str());
            body.append("</pre>");
            LogPage { body, is_html: true }
        },
        _ => LogPage { body: text, is_html: false },
    }
}

/// The input form of a session.
pub open spec fn input_form(id: Seq<char>) -> Seq<char> {
    FORM_TITLE@ + id + FORM_HEADING@ + id + FORM_ACTION@ + id + FORM_LINK@ + id + FORM_END@
}

/// The input form of a session.
pub fn http_input_form(id: &str) -> (r: String)
    ensures
        r@ == input_form(id@),
{
    let mut r = owned(FORM_TITLE);
    r.append(id);
    r.append(FORM_HEADING);
    r.append(id);
    r.append(FORM_ACTION);
    r.append(id);
    r.append(FORM_LINK);
    r.append(id);
    r.append(FORM_END);
    r
}

/// Answers a submitted input once it was written to a process that is in a pseudo-terminal or
/// not. A process without standard input takes any input.
pub fn input_submitted(is_pty: bool, outcome: &WriteOutcome) -> (r: HttpReply)
    ensures
        match *outcome {
            WriteOutcome::Failed(_) => r.is(
                500,
                if is_pty {
                    "PTY write failed"@
                } else {
                    "Write failed"@
                },
            ),
            _ => r.is(200, "OK"@),
        },
{
    match outcome {
        WriteOutcome::Failed(_) => if is_pty {
            reply(500, "PTY write failed")
        } else {
            reply(500, "Write failed")
        },
        _ => reply(200, "OK"),
    }
}

impl<P, T> Runner<P, T> {
    /// The index page.
    pub open spec fn index_page(self) -> Seq<char> {
        INDEX_TOP@ + if self.sessions.ids().len() == 0 {
            "<p>No active sessions</p>"@
        } else {
            TABLE_TOP@ + index_rows(self.sessions.ids(), self.sessions@) + "</table>"@
        } + "</body></html>"@
    }

    /// A request for the index page. The polls of the sessions' processes come in the order of
    /// the ids, and are recorded first.
    pub fn http_index(&mut self, polls: &Vec<Option<ExitStatus>>) -> (r: String)
        requires
            old(self).wf(),
            old(self).polls_fit(polls@),
        ensures
            old(self).reaps_all(polls@, *final(self)),
            r@ == final(self).index_page(),
    {
        self.reap_all(polls);
        self.index_text()
    }

    fn index_text(&self) -> (r: String)
        requires
            self.wf(),
        ensures
            r@ == self.index_page(),
    {
        let mut html = owned(INDEX_TOP);
        if self.sessions.len() == 0 {
            html.append("<p>No active sessions</p>");
        } else {
            let ghost ids = self.sessions.ids();
            html.append(TABLE_TOP);
            let ghost top = html@;
            let mut i: usize = 0;
            while i < self.sessions.len()
                invariant
                    self.wf(),
                    ids == self.sessions.ids(),
                    i <= ids.len(),
                    html@ == top + index_rows(ids.take(i as int), self.sessions@),
                decreases ids.len() - i,
            {
                let (id, session) = self.sessions.at(i);
                push_row(&mut html, id, session);
                assert(ids.take(i + 1).drop_last() =~= ids.take(i as int));
                i += 1;
            }
            assert(ids.take(i as int) =~= ids);
            html.append("</table>");
        }
        html.append("</body></html>");
        html
    }

    /// The page of a session, which follows its standard output.
    pub fn http_session(&self, id: &str) -> (r: String)
        requires
            self.wf(),
        ensures
            r@ == if self.sessions@.contains_key(id@) {
                session_page(id@, self.sessions@[id@], OutputStream::Stdout)
            } else {
                "Session not found"@
            },
    {
        self.http_follow(id, OutputStream::Stdout)
    }

    /// The page that follows a stream of a session, or what is said where there is none.
    pub fn http_follow(&self, id: &str, stream: OutputStream) -> (r: String)
        requires
            self.wf(),
        ensures
            r@ == if !self.sessions@.contains_key(id@) {
                "Session not found"@
            } else if self.sessions@[id@].path_of(stream) is None {
                "stderr not split for this session"@
            } else {
                session_page(id@, self.sessions@[id@], stream)
            },
    {
        match self.log_source(id, stream) {
            Err(text) => text,
            Ok(_) => match self.sessions.get(id) {
                Some(session) => live_page(id, session, stream),
                None => owned("Session not found"),
            },
        }
    }

    /// A request to delete a session. What it returns beside the answer is to be cleaned up.
    pub fn http_delete_session(&mut self, id: &str) -> (r: (Option<Cleanup<P, T>>, HttpReply))
        requires
            old(self).wf(),
        ensures
            final(self).wf(),
            final(self).same_but_sessions(*old(self)),
            final(self).sessions@ == old(self).sessions@.remove(id@),
            if old(self).sessions@.contains_key(id@) {
                &&& r.0 is Some
                &&& r.0->0.ends(old(self).sessions@[id@])
                &&& r.1.is(200, "Deleted"@)
            } else {
                r.0 is None && r.1.is(404, "Session not found"@)
            },
    {
        match remove_session(id, &mut self.sessions) {
            Some(cleanup) => (Some(cleanup), reply(200, "Deleted")),
            None => (None, reply(404, "Session not found")),
        }
    }

    /// The log file of a stream, for a page or a follower, or what is said where there is none.
    pub fn log_source(&self, id: &str, stream: OutputStream) -> (r: Result<String, String>)
        requires
            self.wf(),
        ensures
            if !self.sessions@.contains_key(id@) {
                r is Err && r->Err_0@ == "Session not found"@
            } else {
                match self.sessions@[id@].path_of(stream) {
                    Some(path) => r is Ok && r->Ok_0@ == path,
                    None => r is Err && r->Err_0@ == "stderr not split for this session"@,
                }
            },
    {
        match self.output_source(id, stream) {
            Ok((path, _pos)) => Ok(path),
            Err(e) => Err(e.message),
        }
    }

    /// A submitted input: the bytes to write to the process and whether it is in a
    /// pseudo-terminal, or the answer where there is no process to write to.
    pub fn http_input_submit(&self, id: &str, input: &str) -> (r: Result<
        (Vec<u8>, bool),
        HttpReply,
    >)
        requires
            self.wf(),
        ensures
            if !self.sessions@.contains_key(id@) {
                r is Err && r->Err_0.is(404, "Session not found"@)
            } else {
                let session = self.sessions@[id@];
                if session.process is None {
                    r is Err && r->Err_0.is(410, "Process not running"@)
                } else {
                    &&& r is Ok
                    &&& r->Ok_0.0@ == typed_line(input@, session.is_pty)
                    &&& r->Ok_0.1 == session.is_pty
                }
            },
    {
        match self.sessions.get(id) {
            None => Err(reply(404, "Session not found")),
            Some(session) => {
                if session.process.is_none() {
                    Err(reply(410, "Process not running"))
                } else {
                    Ok((line_bytes(input, session.is_pty), session.is_pty))
                }
            },
        }
    }
}

/// A session is shown as running while it runs, as failed where it ended with an exit code other
/// than zero, and as exited in any other case.
pub proof fn law_failed_sessions_are_marked<P, T>(session: Session<P, T>)
    ensures
        session.process is Some ==> status_class(session) == "running"@,
        session.process is None && session.exit_code is Some && session.exit_code->0 != 0
            ==> status_class(session) == "failed"@,
        session.process is None && session.exit_code == Some(0i32) ==> status_class(session)
            == "exited"@,
        session.process is None && session.exit_code is None ==> status_class(session) == "exited"@,
{
}

/// A label is shown as it is, and in its place another text where there is none.
pub proof fn law_label_is_shown(label: Option<String>, other: Seq<char>)
    ensures
        label is Some ==> label_or(label, other) == label->0@,
        label is None ==> label_or(label, other) == other,
{
}

/// The row of a session links to its page by its id, shows its id, its label or a dash, its
/// command escaped and its status, and has a button that deletes it by its id.
pub proof fn law_row_shows_the_session<P, T>(id: Seq<char>, session: Session<P, T>)
    ensures
        ({
            let label = if session.label is Some {
                session.label->0@
            } else {
                "-"@
            };
            let link = ROW_LINK@ + id + ROW_ID@ + id;
            let names = ROW_LABEL@ + label + ROW_COMMAND@ + escaped(session.command@);
            let status = ROW_CLASS@ + status_class(session) + ROW_STATUS@ + status_word(session);
            let button = ROW_DELETE@ + id + ROW_END@;
            index_row(id, session) == link + names + status + button
        }),
{
    let label = label_or(session.label, "-"@);
    let names = ROW_LABEL@ + label + ROW_COMMAND@ + escaped(session.command@);
    let status = ROW_CLASS@ + status_class(session) + ROW_STATUS@ + status_word(session);
    let button = ROW_DELETE@ + id + ROW_END@;
    assert(index_row(id, session) =~= ROW_LINK@ + id + ROW_ID@ + id + names + status + button);
}

/// The rows of the sessions stand one below the other in the order of the ids, one for each.
pub proof fn law_rows_stand_in_order<P, T>(
    a: Seq<Seq<char>>,
    b: Seq<Seq<char>>,
    id: Seq<char>,
    sessions: Map<Seq<char>, Session<P, T>>,
)
    ensures
        index_rows(Seq::empty(), sessions) == Seq::<char>::empty(),
        index_rows(seq![id], sessions) == index_row(id, sessions[id]),
        index_rows(a + b, sessions) == index_rows(a, sessions) + index_rows(b, sessions),
    decreases b.len(),
{
    assert(seq![id].drop_last() =~= Seq::<Seq<char>>::empty());
    assert(index_rows(seq![id].drop_last(), sessions) == Seq::<char>::empty());
    assert(index_rows(seq![id], sessions) =~= index_row(id, sessions[id]));
    if b.len() == 0 {
        assert(a + b =~= a);
        assert(index_rows(a, sessions) + index_rows(b, sessions) =~= index_rows(a, sessions));
    } else {
        law_rows_stand_in_order(a, b.drop_last(), id, sessions);
        assert((a + b).drop_last() =~= a + b.drop_last());
        assert(index_rows(a + b, sessions) =~= index_rows(a, sessions) + index_rows(b, sessions));
    }
}

/// The index page is the table of the sessions, or says that there are none.
pub proof fn law_index_page_has_all_sessions<P, T>(runner: Runner<P, T>)
    ensures
        runner.sessions.ids().len() == 0 ==> runner.index_page() == INDEX_TOP@
            + "<p>No active sessions</p></body></html>"@,
        runner.sessions.ids().len() > 0 ==> runner.index_page() == INDEX_TOP@ + TABLE_TOP@
            + index_rows(runner.sessions.ids(), runner.sessions@) + "</table></body></html>"@,
{
    reveal_strlit("<p>No active sessions</p>");
    reveal_strlit("</body></html>");
    reveal_strlit("<p>No active sessions</p></body></html>");
    reveal_strlit("</table>");
    reveal_strlit("</table></body></html>");
    assert("<p>No active sessions</p></body></html>"@ =~= "<p>No active sessions</p>"@
        + "</body></html>"@);
    assert("</table></body></html>"@ =~= "</table>"@ + "</body></html>"@);
    if runner.sessions.ids().len() == 0 {
        assert(runner.index_page() =~= INDEX_TOP@ + "<p>No active sessions</p></body></html>"@);
    } else {
        assert(runner.index_page() =~= INDEX_TOP@ + TABLE_TOP@ + index_rows(
            runner.sessions.ids(),
            runner.sessions@,
        ) + "</table></body></html>"@);
    }
}

/// The live page of a running session says so and takes input, and that of any other says that it
/// has exited and takes none. It is titled with the label, or the id where there is none, shows
/// the command, follows the feed of its stream and sends input to its session.
pub proof fn law_live_page_shows_the_session<P, T>(id: Seq<char>, session: Session<P, T>)
    ensures
        ({
            let label = escaped(
                if session.label is Some {
                    session.label->0@
                } else {
                    id
                },
            );
            let top = PAGE_TITLE@ + label + PAGE_STYLE@ + label + PAGE_COMMAND@ + escaped(
                session.command@,
            ) + PAGE_CLASS@;
            let body = if session.process is Some {
                top + "live"@ + PAGE_STATUS@ + "running"@ + PAGE_INPUT@ + PAGE_BUTTON@
            } else {
                top + "done"@ + PAGE_STATUS@ + "exited"@ + PAGE_INPUT@ + "disabled"@ + PAGE_BUTTON@
                    + "disabled"@
            };
            let feed = body + PAGE_SCRIPT@ + id;
            &&& session_page(id, session, OutputStream::Stdout) == feed + PAGE_SEND@ + id
                + PAGE_END@
            &&& session_page(id, session, OutputStream::Stderr) == feed + "/live/stderr"@
                + PAGE_SEND@ + id + PAGE_END@
        }),
{
    reveal_strlit("");
    let label = escaped(label_or(session.label, id));
    let top = PAGE_TITLE@ + label + PAGE_STYLE@ + label + PAGE_COMMAND@ + escaped(session.command@)
        + PAGE_CLASS@;
    let live = top + "live"@ + PAGE_STATUS@ + "running"@ + PAGE_INPUT@;
    assert(live + ""@ =~= live);
    assert(live + PAGE_BUTTON@ + ""@ =~= live + PAGE_BUTTON@);
    let feed = if session.process is Some {
        live + PAGE_BUTTON@
    } else {
        top + "done"@ + PAGE_STATUS@ + "exited"@ + PAGE_INPUT@ + "disabled"@ + PAGE_BUTTON@
            + "disabled"@
    } + PAGE_SCRIPT@ + id;
    assert(feed + ""@ =~= feed);
}

/// The page of a log is the whole of the log in its mode, between tags where it is HTML.
pub proof fn law_log_page_holds_the_log(log: Seq<u8>)
    ensures
        log_page(log, AnsiMode::Raw) == lossy_decoded(log),
        log_page(log, AnsiMode::Strip) == crate::ansi::stripped(lossy_decoded(log)),
        log_page(log, AnsiMode::Html) == "<pre>"@ + presented(lossy_decoded(log), AnsiMode::Html)
            + "</pre>"@,
{
}

/// The input form of a session names it, sends to it and links back to it.
pub proof fn law_input_form_is_for_the_session(id: Seq<char>)
    ensures
        ({
            let title = FORM_TITLE@ + id + FORM_HEADING@ + id;
            let form = FORM_ACTION@ + id + FORM_LINK@ + id + FORM_END@;
            input_form(id) == title + form
        }),
{
    assert(input_form(id) =~= FORM_TITLE@ + id + FORM_HEADING@ + id + (FORM_ACTION@ + id
        + FORM_LINK@ + id + FORM_END@));
}

/// A reply has one status and one text.
pub proof fn law_reply_has_its_status_and_text(reply: HttpReply, status: u16, body: Seq<char>)
    ensures
        reply.is(status, body) <==> reply.status == status && reply.body@ == body,
{
}

} // verus!

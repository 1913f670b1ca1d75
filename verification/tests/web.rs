use mcp_runner::input::WriteOutcome;
use mcp_runner::output::OutputStream;
use mcp_runner::protocol::StartCommandArgs;
use mcp_runner::runner::Runner;
use mcp_runner::session::{ExitStatus, ProcessHandle};
use mcp_runner::stream::AnsiMode;
use mcp_runner::web::{http_input_form, http_log, input_submitted};

fn start(c: &mut Runner<u32, u32>, command: &str, label: Option<&str>, use_pty: bool) {
    let plan = c.start_command(StartCommandArgs {
        command: command.to_string(),
        args: None,
        label: label.map(|l| l.to_string()),
        working_dir: None,
        env: None,
        split_stderr: Some(true),
        use_pty: Some(use_pty),
        stream_log: None,
        timeout_seconds: None,
    });
    let process = if use_pty { ProcessHandle::Pty(2) } else { ProcessHandle::Pipe(1) };
    c.command_started(plan, process);
}

fn exited(code: i32) -> Option<ExitStatus> {
    Some(ExitStatus { code: Some(code), signal: None })
}

#[test]
fn the_index_of_no_sessions_says_so() {
    let mut c: Runner<u32, u32> = Runner::new();
    let page = c.http_index(&Vec::new());
    assert!(page.starts_with("<!DOCTYPE html><html><head><title>MCP Runner</title>\n<style>\n"));
    assert!(page.ends_with("<h1>MCP Runner</h1><p>No active sessions</p></body></html>"));
}

#[test]
fn the_index_lists_the_sessions() {
    let mut c: Runner<u32, u32> = Runner::new();
    start(&mut c, "a < b", Some("first"), false);
    start(&mut c, "two", None, false);
    start(&mut c, "three", None, false);
    start(&mut c, "four", None, false);
    c.expire("4");
    let page = c.http_index(&vec![None, exited(0), exited(7), None]);
    assert_eq!(c.is_running("2", None), Some(false));
    let rows = page.split("<th></th></tr>").nth(1).unwrap();
    let first = r#"<tr>
<td><a href="/session/1">1</a></td>
<td>first</td>
<td><code>a &lt; b</code></td>
<td class="running">running</td>
<td><button onclick="fetch('/session/1',{method:'DELETE'}).then(()=>location.reload())">delete</button></td>
</tr><tr>
<td><a href="/session/2">2</a></td>
<td>-</td>
"#;
    assert!(rows.starts_with(first), "{}", rows);
    assert!(rows.contains("<td class=\"exited\">exited (0)</td>"));
    assert!(rows.contains("<td class=\"failed\">exited (7)</td>"));
    assert!(rows.contains("<td class=\"exited\">unknown</td>"));
    assert!(rows.ends_with("</tr></table></body></html>"));
}

#[test]
fn the_page_of_a_running_session_takes_input() {
    let mut c: Runner<u32, u32> = Runner::new();
    start(&mut c, "cat <in", Some("a&b"), false);
    let page = c.http_session("1");
    assert!(page.starts_with("<!DOCTYPE html>\n<html>\n<head>\n    <title>a&amp;b - MCP Runner"));
    assert!(page.contains("<strong>a&amp;b</strong>"));
    assert!(page.contains("<span class=\"cmd\">cat &lt;in</span>"));
    assert!(page.contains("<span id=\"status\" class=\"live\">running</span>"));
    assert!(page.contains("autocomplete=\"off\" >"));
    assert!(page.contains("<button type=\"submit\" >Send</button>"));
    assert!(page.contains("new EventSource('/session/1/stream?from=0');"));
    assert!(page.contains("fetch('/session/1/input', {\n"));
    assert!(page.contains("body { font-family: monospace;"));
    assert!(page.ends_with("</body>\n</html>"));
}

#[test]
fn the_page_of_an_ended_session_takes_none() {
    let mut c: Runner<u32, u32> = Runner::new();
    start(&mut c, "true", None, false);
    c.reap("1", exited(0));
    let page = c.http_session("1");
    assert!(page.contains("<strong>1</strong>"));
    assert!(page.contains("<span id=\"status\" class=\"done\">exited</span>"));
    assert!(page.contains("autocomplete=\"off\" disabled>"));
    assert!(page.contains("<button type=\"submit\" disabled>Send</button>"));
}

#[test]
fn a_page_needs_a_session() {
    let c: Runner<u32, u32> = Runner::new();
    assert_eq!(c.http_session("1"), "Session not found");
    assert_eq!(c.log_source("1", OutputStream::Stdout), Err("Session not found".to_string()));
}

#[test]
fn logs_are_found_by_stream() {
    let mut c: Runner<u32, u32> = Runner::new();
    start(&mut c, "true", None, false);
    start(&mut c, "gdb", None, true);
    let path = |id: &str, stream| c.log_source(id, stream);
    assert_eq!(path("1", OutputStream::Stdout), Ok("/tmp/mcp_cmd_1_stdout.log".to_string()));
    assert_eq!(path("1", OutputStream::Stderr), Ok("/tmp/mcp_cmd_1_stderr.log".to_string()));
    assert_eq!(
        path("2", OutputStream::Stderr),
        Err("stderr not split for this session".to_string())
    );
}

#[test]
fn a_session_is_deleted_once() {
    let mut c: Runner<u32, u32> = Runner::new();
    start(&mut c, "cat", None, true);
    let (cleanup, reply) = c.http_delete_session("1");
    let cleanup = cleanup.unwrap();
    assert!(matches!(cleanup.process, Some(ProcessHandle::Pty(2))));
    assert_eq!(cleanup.paths, ["/tmp/mcp_cmd_1_stdout.log"]);
    assert_eq!(reply.status, 200);
    assert_eq!(reply.body, "Deleted");
    let (cleanup, reply) = c.http_delete_session("1");
    assert!(cleanup.is_none());
    assert_eq!(reply.status, 404);
    assert_eq!(reply.body, "Session not found");
}

#[test]
fn submitted_input_gets_the_right_line_ending() {
    let mut c: Runner<u32, u32> = Runner::new();
    start(&mut c, "cat", None, false);
    start(&mut c, "gdb", None, true);
    assert_eq!(c.http_input_submit("1", "ls \n").ok().unwrap(), (b"ls\n".to_vec(), false));
    assert_eq!(c.http_input_submit("2", "ls").ok().unwrap(), (b"ls\r\n".to_vec(), true));
}

#[test]
fn submitted_input_needs_a_process() {
    let mut c: Runner<u32, u32> = Runner::new();
    start(&mut c, "cat", None, false);
    c.reap("1", exited(0));
    let reply = c.http_input_submit("1", "x").err().unwrap();
    assert_eq!(reply.status, 410);
    assert_eq!(reply.body, "Process not running");
    let reply = c.http_input_submit("2", "x").err().unwrap();
    assert_eq!(reply.status, 404);
    assert_eq!(reply.body, "Session not found");
}

#[test]
fn submitted_input_is_answered() {
    let failed = WriteOutcome::Failed("broken".to_string());
    for (is_pty, outcome, status, body) in [
        (false, &WriteOutcome::Written, 200, "OK"),
        (true, &WriteOutcome::Written, 200, "OK"),
        (false, &WriteOutcome::NoStdin, 200, "OK"),
        (false, &failed, 500, "Write failed"),
        (true, &failed, 500, "PTY write failed"),
    ] {
        let reply = input_submitted(is_pty, outcome);
        assert_eq!(reply.status, status);
        assert_eq!(reply.body, body);
    }
}

#[test]
fn the_input_form_names_its_session() {
    let page = http_input_form("12");
    assert!(page.starts_with("<!DOCTYPE html><html><head><title>Input - 12</title></head><body>\n"));
    assert!(page.contains("<h2>Input for session 12</h2>\n"));
    assert!(page.contains("<form method=\"post\" action=\"/session/12/input\">\n"));
    assert!(page.contains("<a href=\"/session/12\">Back to session</a> | <a href=\"/\">Sessions"));
    assert!(page.ends_with("</body></html>"));
}

#[test]
fn a_log_has_a_page_in_each_mode() {
    let log = b"\x1b[31m<red>\x1b[0m\n";
    let page = http_log(log, AnsiMode::Html);
    assert!(page.is_html);
    assert!(page.body.starts_with("<pre><span"));
    assert!(page.body.contains("&lt;red&gt;"));
    assert!(page.body.ends_with("\n</pre>"));
    let page = http_log(log, AnsiMode::Strip);
    assert!(!page.is_html);
    assert_eq!(page.body, "<red>\n");
    let page = http_log(log, AnsiMode::Raw);
    assert!(!page.is_html);
    assert_eq!(page.body, "\x1b[31m<red>\x1b[0m\n");
}

#[test]
fn each_stream_has_a_live_page() {
    let mut c: Runner<u32, u32> = Runner::new();
    start(&mut c, "true", None, false);
    start(&mut c, "gdb", None, true);
    assert_eq!(c.http_follow("1", OutputStream::Stdout), c.http_session("1"));
    let page = c.http_follow("1", OutputStream::Stderr);
    assert!(page.contains("new EventSource('/session/1/live/stderr/stream?from=0');"));
    assert!(page.contains("fetch('/session/1/input', {\n"));
    assert_eq!(c.http_follow("2", OutputStream::Stderr), "stderr not split for this session");
    assert_eq!(c.http_follow("3", OutputStream::Stderr), "Session not found");
}

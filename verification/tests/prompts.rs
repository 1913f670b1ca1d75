use mcp_runner::prompts::{PromptMessage, PromptMessageRole, INSTRUCTIONS, SERVER_NAME};
use mcp_runner::protocol::LoggingLevel;
use mcp_runner::runner::Runner;
use mcp_runner::transport::{announce_http, transport_by_name, Transport};

fn text(prompt: Vec<PromptMessage>) -> String {
    assert_eq!(prompt.len(), 1);
    assert_eq!(prompt[0].role, PromptMessageRole::User);
    prompt[0].text.clone()
}

#[test]
fn each_guide_is_about_its_subject() {
    let c: Runner<u32, u32> = Runner::new();
    assert!(text(c.picocom_guide()).contains("picocom"));
    assert!(text(c.gdb_guide()).contains("gdb"));
    assert!(text(c.blackmagic_probe_guide()).contains("extended-remote"));
    assert!(text(c.build_test_guide()).contains("wait_for"));
    assert!(text(c.dev_server_guide()).contains("server"));
    assert!(text(c.ssh_guide()).contains("ssh"));
}

#[test]
fn guides_start_with_a_heading() {
    let c: Runner<u32, u32> = Runner::new();
    for guide in [
        c.picocom_guide(),
        c.gdb_guide(),
        c.blackmagic_probe_guide(),
        c.build_test_guide(),
        c.dev_server_guide(),
        c.ssh_guide(),
    ] {
        assert!(text(guide).starts_with("# "));
    }
}

#[test]
fn a_new_client_is_greeted() {
    let mut c: Runner<u32, u32> = Runner::new();
    c.http_port = 65535;
    let message = c.greeting();
    assert_eq!(message.level, LoggingLevel::Info);
    assert_eq!(message.logger, "mcp-runner");
    assert_eq!(message.data, "HTTP monitoring UI available at http://localhost:65535");
}

#[test]
fn the_server_introduces_itself() {
    assert_eq!(SERVER_NAME, "mcp-runner");
    assert!(INSTRUCTIONS.starts_with("MCP Runner manages long-running processes"));
    assert!(INSTRUCTIONS.ends_with("Use prompts for workflow guides."));
}

#[test]
fn transports_are_found_by_name() {
    assert_eq!(transport_by_name("stdio", 65535), Ok(Transport::Stdio));
    assert_eq!(transport_by_name("http", 8089), Ok(Transport::Http { port: 8090 }));
    assert_eq!(
        transport_by_name("tcp", 0),
        Err("Unknown transport: tcp. Use 'stdio' or 'http'.".to_string())
    );
}

#[test]
fn the_http_transport_is_announced() {
    assert_eq!(announce_http(8090), "MCP streamable HTTP transport on http://0.0.0.0:8090/mcp");
}

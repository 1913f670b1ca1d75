//! How clients reach the server.

use vstd::prelude::*;

use crate::text::{decimal, owned, push_decimal, same_text};

verus! {

/// How clients reach the server.
#[derive(Clone, Copy, Debug, PartialEq, Eq, Structural)]
pub enum Transport {
    /// Over standard input and output.
    Stdio,
    /// Over HTTP, on that port.
    Http { port: u16 },
}

/// What is said where clients reach the server over HTTP.
pub open spec fn http_notice(port: u16) -> Seq<char> {
    "MCP streamable HTTP transport on http://0.0.0.0:"@ + decimal(port as nat) + "/mcp"@
}

/// What is said where clients reach the server over HTTP.
pub fn announce_http(port: u16) -> (r: String)
    ensures
        r@ == http_notice(port),
{
    let mut r = owned("MCP streamable HTTP transport on http://0.0.0.0:");
    push_decimal(&mut r, port as u64);
    r.append("/mcp");
    r
}

/// The transport with that name. `port` is that of the monitoring interface; clients that come
/// over HTTP use the one after it. Returns the complaint where there is no such transport.
pub fn transport_by_name(name: &str, port: u16) -> (r: Result<Transport, String>)
    requires
        name@ == "http"@ ==> port < u16::MAX,
    ensures
        if name@ == "stdio"@ {
            r == Ok::<Transport, String>(Transport::Stdio)
        } else if name@ == "http"@ {
            r == Ok::<Transport, String>(Transport::Http { port: (port + 1) as u16 })
        } else {
            r is Err && r->Err_0@ == "Unknown transport: "@ + name@ + ". Use 'stdio' or 'http'."@
        },
{
    if same_text(name, "stdio") {
        Ok(Transport::Stdio)
    } else if same_text(name, "http") {
        Ok(Transport::Http { port: port + 1 })
    } else {
        let mut message = owned("Unknown transport: ");
        message.append(name);
        message.append(". Use 'stdio' or 'http'.");
        Err(message)
    }
}

/// The notice names the address of the transport. Servers on different ports have different
/// notices.
pub proof fn law_notice_names_the_port(a: u16, b: u16)
    ensures
        http_notice(a) == "MCP streamable HTTP transport on http://0.0.0.0:"@ + decimal(a as nat)
            + "/mcp"@,
        http_notice(a) == http_notice(b) ==> a == b,
{
    let head = "MCP streamable HTTP transport on http://0.0.0.0:"@;
    let na = http_notice(a);
    let nb = http_notice(b);
    if na == nb {
        let tail = "/mcp"@.len();
        assert(na.subrange(head.len() as int, na.len() - tail) =~= decimal(a as nat));
        assert(nb.subrange(head.len() as int, nb.len() - tail) =~= decimal(b as nat));
        crate::text::law_decimal_injective(a as nat, b as nat);
    }
}

} // verus!

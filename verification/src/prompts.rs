//! The guides that a client can ask for, and what the server says of itself.

use vstd::prelude::*;

use crate::log::LoggingMessage;
use crate::protocol::LoggingLevel;
use crate::runner::{base_url, Runner};
use crate::text::owned;

verus! {

/// The name of the server.
pub const SERVER_NAME: &'static str = "mcp-runner";

/// How a client uses the server.
pub const INSTRUCTIONS: &'static str = "MCP Runner manages long-running processes (builds, servers, debuggers, REPLs). Start commands with start_command, read their output with read_output (supports wait_for patterns and timeout_ms for intelligent waiting), search output with search_output, and manage sessions with list_sessions. Use prompts for workflow guides.";

/// The text of `picocom_guide`.
pub const PICOCOM_GUIDE: &'static str = r#"# Picocom Serial Terminal Guide

## Connecting
Use `start_command` with `use_pty: true` (required for picocom):
```json
{"command": "picocom", "args": ["-b", "<baud_rate>", "<device>"], "use_pty": true}
```
Common baud rates: 9600, 115200, 1000000. Common devices: /dev/ttyUSB0, /dev/ttyACM0.

## Reading output
Use `read_output` with the session_id. Picocom prints connection info first, then "Terminal ready" when connected. Device output follows.

## Sending input
Use `send_input` with `input` for text, or `bytes` for raw control characters.

Enter/newline is automatically appended when using `input` — just send the command text:
```json
{"session_id": "...", "input": "help"}
```

To send text without Enter (e.g. partial input), set `no_enter: true`:
```json
{"session_id": "...", "input": "partial", "no_enter": true}
```

## IMPORTANT: Exiting picocom
You MUST use raw bytes to exit picocom. The escape sequence is Ctrl-A then Ctrl-X:
```json
{"session_id": "...", "bytes": [1, 24]}
```
- Byte 1 = Ctrl-A (picocom escape prefix)
- Byte 24 = Ctrl-X (exit command)

A successful exit prints "Thanks for using picocom" with exit code 0.
Do NOT use `stop_command` to kill picocom — that produces "Picocom was killed" (exit code 1) and may leave the serial port in a bad state.

## Other picocom escape commands (all prefixed with Ctrl-A = byte 1)
- [1, 24] = Ctrl-A Ctrl-X = Exit
- [1, 17] = Ctrl-A Ctrl-Q = Quit without reset
- [1, 16] = Ctrl-A Ctrl-P = Pulse DTR
- [1, 20] = Ctrl-A Ctrl-T = Toggle DTR
- [1, 8]  = Ctrl-A Ctrl-H = Hangup
- [1, 2]  = Ctrl-A Ctrl-B = Send break
"#;

/// The text of `gdb_guide`.
pub const GDB_GUIDE: &'static str = r#"# GDB Guide

## Starting GDB
Use `start_command` with `use_pty: true` for interactive use:
```json
{"command": "gdb", "args": ["<binary>"], "use_pty": true}
```
Or attach to a remote target:
```json
{"command": "gdb-multiarch", "args": ["-q", "<elf_file>"], "use_pty": true}
```

## Sending commands
Use `send_input` with `await_response_ms` to send a command and get the response in one call:
```json
{"session_id": "...", "input": "target remote :3333\n", "await_response_ms": 3000}
```

**Important: Newlines**
Always include `\n` at the end of commands. Do NOT double-escape:
- ✓ `"input": "continue\n"` — correct, sends `continue` followed by Enter
- ✗ `"input": "continue\\n"` — wrong, sends literal characters `continue\n` (no Enter)

When in doubt, use `bytes` with byte 10 (newline): `{"bytes": [99, 111, 110, 116, 105, 110, 117, 101, 10]}`

## Interrupting execution
When the target is running (e.g. after `continue`), send SIGINT to break:
```json
{"session_id": "...", "signal": "SIGINT"}
```
Then `read_output` to see where it stopped.

## Common GDB commands
- `target remote <host>:<port>` — connect to remote target
- `load` — flash the program
- `break <location>` — set breakpoint (e.g. `break main`)
- `continue` / `c` — resume execution
- `step` / `s` — step into
- `next` / `n` — step over
- `print <expr>` — evaluate expression
- `info registers` — show registers
- `backtrace` / `bt` — show call stack
- `monitor reset halt` — reset target (OpenOCD/BMP)
- `quit` — exit GDB

## Exiting GDB
```json
{"session_id": "...", "input": "quit\n", "await_response_ms": 1000}
```
If GDB asks for confirmation, send `y\n`.
"#;

/// The text of `blackmagic_probe_guide`.
pub const BLACKMAGIC_PROBE_GUIDE: &'static str = r#"# Black Magic Probe (BMP) Debugging Guide

## Overview
Black Magic Probe is a JTAG/SWD debugger that runs a GDB server directly on the probe — no OpenOCD needed. You connect GDB directly to the probe's serial port.

## Finding the probe
BMP exposes two serial ports. The first is GDB, the second is UART:
```json
{"command": "ls", "args": ["-la", "/dev/serial/by-id/"], "split_stderr": false}
```
Look for `usb-Black_Magic_Debug_*`. The one ending in `-if00` is GDB, `-if02` is UART.
Typically: `/dev/ttyACM0` (GDB) and `/dev/ttyACM1` (UART).

## Starting GDB
```json
{"command": "gdb-multiarch", "args": ["-q", "<path_to_elf>"], "use_pty": true}
```

## Connecting to the probe
Send these commands in sequence using `send_input` with `await_response_ms`:
```
target extended-remote /dev/ttyACM0
monitor swdp_scan
attach 1
```
- `target extended-remote` connects to the BMP GDB server
- `monitor swdp_scan` scans the SWD bus and lists found targets
- `attach 1` attaches to the first target found

## Flashing
```
load
```
This flashes the ELF file specified when starting GDB.

## Debugging
```
monitor reset halt
break main
continue
```
Then use standard GDB commands: `step`, `next`, `print`, `backtrace`, `info registers`, etc.

## Interrupting a running target
Use `send_signal` with SIGINT:
```json
{"session_id": "...", "signal": "SIGINT"}
```

## UART output
To also monitor UART output from the device, start a second session with picocom on the UART port (see picocom_guide prompt):
```json
{"command": "picocom", "args": ["-b", "115200", "/dev/ttyACM1"], "use_pty": true}
```

## Exiting
```json
{"session_id": "...", "input": "quit\n", "await_response_ms": 1000}
```

## Common issues
- "Remote communication error": probe disconnected or wrong port
- "No targets found": check wiring, try `monitor swdp_scan` again
- "Target voltage: ABSENT!": target board not powered
- If GDB hangs after `continue`, use SIGINT to interrupt
"#;

/// The text of `build_test_guide`.
pub const BUILD_TEST_GUIDE: &'static str = r#"# Build & Test Workflow Guide

## Strategy: Use wait_for instead of fixed timeouts
When running builds or tests, use `read_output` with `wait_for` to wait for completion patterns instead of guessing how long the build will take.

## Running a build
```json
{"command": "cargo", "args": ["build", "--release"], "label": "build", "timeout_seconds": 300}
```

Then wait for completion:
```json
{"session_id": "1", "wait_for": "Finished", "timeout_ms": 60000}
```

Common completion patterns by tool:
- **cargo**: "Finished", "error[E" (failure)
- **npm/yarn**: "Done in", "ERR!" (failure)
- **make**: "make: Nothing to be done", "Error" (failure)
- **go build**: returns empty on success, error text on failure
- **gradle**: "BUILD SUCCESSFUL", "BUILD FAILED"
- **cmake --build**: "Built target", "Error" (failure)

## Running tests
```json
{"command": "cargo", "args": ["test"], "label": "tests", "timeout_seconds": 300}
```

Wait for the summary line:
```json
{"session_id": "1", "wait_for": "test result:", "timeout_ms": 120000}
```

Then use `search_output` to find failures:
```json
{"session_id": "1", "pattern": "FAILED"}
```

## Watching for errors in long output
Instead of reading all output, search for what matters:
```json
{"session_id": "1", "pattern": "error"}
{"session_id": "1", "pattern": "warning"}
```

## Multiple build steps
Label each session to keep track:
```json
{"command": "npm", "args": ["install"], "label": "install"}
{"command": "npm", "args": ["run", "build"], "label": "build", "working_dir": "/path/to/project"}
{"command": "npm", "args": ["test"], "label": "test"}
```

Use `list_sessions` to see status of all steps at once.

## Setting environment for builds
```json
{
  "command": "cargo",
  "args": ["build"],
  "env": {"RUSTFLAGS": "-C target-cpu=native", "CARGO_INCREMENTAL": "0"},
  "working_dir": "/path/to/project"
}
```
"#;

/// The text of `dev_server_guide`.
pub const DEV_SERVER_GUIDE: &'static str = r#"# Development Server Guide

## Starting a dev server
```json
{"command": "npm", "args": ["run", "dev"], "label": "dev-server", "working_dir": "/path/to/project"}
```

Then wait for the ready message:
```json
{"session_id": "1", "wait_for": "ready", "timeout_ms": 30000}
```

Common ready patterns by framework:
- **Vite/Next.js**: "ready in", "Local:"
- **Django**: "Starting development server"
- **Flask**: "Running on"
- **Express**: "listening on port"
- **Rails**: "Listening on"
- **Go net/http**: "Serving" or custom log

## Monitoring server logs
After the server is running, periodically check for errors:
```json
{"session_id": "1", "pattern": "ERROR"}
{"session_id": "1", "pattern": "500"}
```

Or read recent output:
```json
{"session_id": "1", "timeout_ms": 1000}
```
This returns any output accumulated since last read, waiting up to 1s for new output.

## Restarting a server
Stop the old session and start fresh:
```json
// Send Ctrl-C first for graceful shutdown
{"session_id": "1", "signal": "SIGINT"}
```
Wait briefly, then check status:
```json
{"session_id": "1"}  // get_status
```
If still running after 3 seconds, use `stop_command`.

## Running multiple services
Common pattern: a frontend and backend running simultaneously:
```json
{"command": "npm", "args": ["run", "dev"], "label": "frontend", "working_dir": "/app/frontend"}
{"command": "python", "args": ["manage.py", "runserver"], "label": "backend", "working_dir": "/app/backend"}
```

Use `list_sessions` to see both at a glance. Use `search_output` on each to check for errors without reading full logs.

## Port conflicts
If a server fails to start due to a port conflict, find and kill the conflicting process:
```json
{"command": "lsof", "args": ["-ti", ":3000"]}
```
Read the output to get the PID, then start a new session to kill it or choose a different port.
"#;

/// The text of `ssh_guide`.
pub const SSH_GUIDE: &'static str = r#"# SSH & Remote Command Guide

## Starting an SSH session
Use PTY mode for interactive SSH (required for shell prompts and password entry):
```json
{"command": "ssh", "args": ["user@host"], "use_pty": true, "label": "remote-host"}
```

Wait for the shell prompt:
```json
{"session_id": "1", "wait_for": "$", "timeout_ms": 15000}
```

## Running remote commands
Once connected, send commands and await their output:
```json
{"session_id": "1", "input": "ls -la /var/log", "await_response_ms": 3000}
```

For long-running remote commands, use `read_output` with `wait_for`:
```json
{"session_id": "1", "input": "sudo apt update"}
```
```json
{"session_id": "1", "wait_for": "Reading package lists", "timeout_ms": 60000}
```

## Password entry
Use elicitation to securely enter passwords without exposing them:
```json
{"session_id": "1", "elicit": true, "elicit_message": "Enter SSH password for user@host"}
```

Or for sudo:
```json
{"session_id": "1", "input": "sudo systemctl restart nginx"}
```
If prompted for password:
```json
{"session_id": "1", "elicit": true, "elicit_message": "Enter sudo password"}
```

## SSH tunnel
Start a tunnel as a background session:
```json
{"command": "ssh", "args": ["-N", "-L", "5432:localhost:5432", "user@bastion"], "label": "db-tunnel"}
```

Check if it's still running with `get_status`. Kill with `stop_command` when done.

## SCP / file transfer
```json
{"command": "scp", "args": ["user@host:/remote/path", "/local/path"], "label": "download"}
```

Wait for completion:
```json
{"session_id": "1", "wait_for": "100%", "timeout_ms": 60000}
```

## Exiting SSH
```json
{"session_id": "1", "input": "exit"}
```

Or disconnect forcefully:
```json
{"session_id": "1", "signal": "SIGTERM"}
```

## Common issues
- Timeout on connect: host unreachable or SSH key not set up
- "Host key verification failed": need to accept the host key first
- Hung session: send `~.` (SSH escape to disconnect): `{"session_id": "1", "input": "~.", "no_enter": true}`
"#;

/// Who says a message of a prompt.
#[derive(Clone, Copy, Debug, PartialEq, Eq, Structural)]
pub enum PromptMessageRole {
    User,
    Assistant,
}

/// A message of a prompt.
#[derive(Debug)]
pub struct PromptMessage {
    pub role: PromptMessageRole,
    pub text: String,
}

/// Whether a prompt is that one message of the user.
pub open spec fn is_user_prompt(prompt: Seq<PromptMessage>, text: Seq<char>) -> bool {
    &&& prompt.len() == 1
    &&& prompt[0].role == PromptMessageRole::User
    &&& prompt[0].text@ == text
}

fn user_prompt(text: &str) -> (r: Vec<PromptMessage>)
    ensures
        is_user_prompt(r@, text@),
{
    let mut r: Vec<PromptMessage> = Vec::new();
    r.push(PromptMessage { role: PromptMessageRole::User, text: owned(text) });
    r
}

impl<P, T> Runner<P, T> {
    /// Guide for using picocom serial terminal. Covers connecting to a device, reading output, and
    /// exiting gracefully with raw byte control sequences.
    pub fn picocom_guide(&self) -> (r: Vec<PromptMessage>)
        ensures
            is_user_prompt(r@, PICOCOM_GUIDE@),
    {
        user_prompt(PICOCOM_GUIDE)
    }

    /// Guide for using GDB (GNU Debugger) through the command wrapper. Covers starting GDB, common
    /// commands, and using Ctrl-C to interrupt execution.
    pub fn gdb_guide(&self) -> (r: Vec<PromptMessage>)
        ensures
            is_user_prompt(r@, GDB_GUIDE@),
    {
        user_prompt(GDB_GUIDE)
    }

    /// Guide for on-device debugging with Black Magic Probe using GDB. Covers probe discovery,
    /// connecting, flashing, and debugging embedded targets.
    pub fn blackmagic_probe_guide(&self) -> (r: Vec<PromptMessage>)
        ensures
            is_user_prompt(r@, BLACKMAGIC_PROBE_GUIDE@),
    {
        user_prompt(BLACKMAGIC_PROBE_GUIDE)
    }

    /// Guide for running builds and tests. Covers using wait_for to detect completion,
    /// search_output for errors, timeout_seconds for bounded execution, and multi-step build
    /// workflows.
    pub fn build_test_guide(&self) -> (r: Vec<PromptMessage>)
        ensures
            is_user_prompt(r@, BUILD_TEST_GUIDE@),
    {
        user_prompt(BUILD_TEST_GUIDE)
    }

    /// Guide for running and monitoring development servers. Covers waiting for ready state, log
    /// monitoring, restart patterns, and running multiple services.
    pub fn dev_server_guide(&self) -> (r: Vec<PromptMessage>)
        ensures
            is_user_prompt(r@, DEV_SERVER_GUIDE@),
    {
        user_prompt(DEV_SERVER_GUIDE)
    }

    /// Guide for SSH sessions, remote commands, secure password entry via elicitation, tunnels, and
    /// file transfers.
    pub fn ssh_guide(&self) -> (r: Vec<PromptMessage>)
        ensures
            is_user_prompt(r@, SSH_GUIDE@),
    {
        user_prompt(SSH_GUIDE)
    }

    /// What a new client is told: where the monitoring interface is.
    pub fn greeting(&self) -> (r: LoggingMessage)
        ensures
            r.level == LoggingLevel::Info,
            r.logger@ == SERVER_NAME@,
            r.data@ == "HTTP monitoring UI available at "@ + base_url(self.http_port),
    {
        let mut data = owned("HTTP monitoring UI available at ");
        let base = self.http_base_url();
        data.append(base.as_str());
        LoggingMessage { level: LoggingLevel::Info, logger: owned(SERVER_NAME), data }
    }
}

/// A prompt is one message of the user's that holds the whole of the text.
pub proof fn law_prompt_is_one_message(prompt: Seq<PromptMessage>, text: Seq<char>)
    requires
        is_user_prompt(prompt, text),
    ensures
        prompt.len() == 1,
        prompt[0].role == PromptMessageRole::User,
        prompt[0].text@ == text,
{
}

} // verus!

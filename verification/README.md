# mcp_runner

A server for the Model Context Protocol (MCP) that runs long-lived commands for a client: it
starts them, keeps what they print, sends them input and signals, waits for their output, and
shows all of it on a monitoring page. What each request does to its state, what it answers, what
it sends and when it stops waiting is decided by a library that
[Verus](https://github.com/verus-lang/verus) verifies.

## Layout

`src/` is the library.

| Module | What it holds |
|--------|---------------|
| `runner` | the server's state, and how a command is started |
| `session` | sessions, their table, and what is left to do when one is gone |
| `control` | requests that stop, delete and list sessions |
| `input` | what is sent to a process, and how the user is asked for it |
| `output`, `reader` | reading on in the output of a session |
| `wait` | waiting for output: when to stop, and what to return then |
| `search` | searching the output of a session |
| `run` | running a command to its end |
| `signal` | signals by name |
| `log` | process output as log messages |
| `resources` | session output as resources |
| `stream` | the complete lines of log files, and the escape sequences in them |
| `follow` | following a log file line by line |
| `ending` | ending processes that take too long |
| `web`, `html` | the pages and answers of the monitoring interface |
| `prompts` | the guides, and what the server says of itself |
| `protocol`, `transport` | what a client sends and how it reaches the server |
| `pty`, `ansi` | terminal output: carriage returns and escape sequences |
| `text` | character-level text operations |

`app/` is the program around it: processes, pseudo-terminals, files, clocks, the MCP transport
and the HTTP server. It polls, reads and writes, hands what came of it to the library, and does
what the library answers.

`tests/` runs the library.

## What is not proved

A few functions are believed rather than proved: removing escape sequences
(`strip_ansi_escapes::strip`), turning them into HTML (`ansi_to_html::convert`), decoding bytes
(`String::from_utf8_lossy`), upper case (`str::to_uppercase`) and `String::push`. Their contracts
stand in `ansi`, `signal` and `text` with a note on what is claimed of each.

## Conduct worth knowing

- A session stays after its process has ended, so that its output can be read; it goes when it is
  deleted, or with the server.
- Each read returns only what came since the last one.
- Events of a followed log carry the byte offset behind their line. A follower that comes back
  with the last one goes on after that line.
- A process that takes too long is asked to end, and killed five seconds later where it has not.
- Text that is sent with `no_enter` goes out exactly as it is.

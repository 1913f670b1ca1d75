[package]
name = "mcp_runner"
version = "0.1.0"
edition = "2021"
publish = false

[dependencies]
strip-ansi-escapes = "=0.2.1"
ansi-to-html = "=0.2.4"
rmcp = { version = "=1.8.0", features = ["server", "macros", "transport-io", "transport-streamable-http-server", "elicitation", "schemars"] }
axum = "=0.8.9"
tokio = { version = "=1.54.1", features = ["full"] }
tokio-util = "=0.7.20"
serde = { version = "=1.0.229", features = ["derive"] }
serde_json = "=1.0.154"
clap = { version = "=4.6.7", features = ["derive"] }
futures = "=0.3.34"
async-stream = "=0.3.6"
nix = { version = "=0.31.3", features = ["signal", "process"] }
pty-process = { version = "=0.5.4", features = ["async"] }

//! Runs and supervises long-lived commands.

pub mod ansi;
pub mod control;
pub mod ending;
pub mod follow;
pub mod html;
pub mod input;
pub mod log;
pub mod output;
pub mod prompts;
pub mod protocol;
pub mod pty;
pub mod reader;
pub mod resources;
pub mod run;
pub mod runner;
pub mod search;
pub mod session;
pub mod signal;
pub mod stream;
pub mod text;
pub mod transport;
pub mod wait;
pub mod web;

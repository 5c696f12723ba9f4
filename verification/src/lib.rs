//! Drives a command-line agent process one request at a time: builds the
//! invocation, decodes the line protocol the process writes, folds the decoded
//! events into the final answer and keeps the session identifier for the next
//! request. Everything here computes on plain values; spawning, reading and
//! writing are left to the caller.

pub mod commands;
pub mod event;
pub mod image;
pub mod json;
pub mod mascot;
pub mod request;
pub mod run;
pub mod state;
pub mod text;
pub mod tray;

//! The decisions of a terminal's tty on Windows, with proofs.
//!
//! A pseudo console is reached through blocking pipes. Two worker threads move bytes
//! between those pipes and bounded in-memory ones, and tell a poller when the terminal can
//! read or write again. This crate holds what is decided along the way: which command line
//! starts the child, who is to be told about what, and what a worker thread does next.
//! The threads, the poller and the pseudo console itself belong to the program around it.

pub mod blocking;
pub mod command_line;
pub mod escaping;
pub mod event;
pub mod parsing;
pub mod pipe;
pub mod pty;
pub mod registration;
pub mod wide;

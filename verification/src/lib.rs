//! Process helpers for running a benchmark peer in a forked child process:
//! the decisions taken around `fork`, and the `waitpid` and `kill` requests
//! that a parent issues for a child it forked.
//!
//! The system calls themselves are performed by the caller (they need
//! `unsafe` code); this crate decides what to do with their results and
//! which arguments they get.

pub mod process;

//! A benchmarking and testing harness for example programs that target the
//! Miden virtual machine.
//!
//! The library reads nothing from disk itself: callers hand it file contents
//! and directory listings as plain values, and it drives the
//! compile / execute / prove / verify pipelines of the Miden engine over them,
//! reporting timings, pass/fail status and aggregate summaries.

pub mod engine;
pub mod inputs;
pub mod program;
pub mod runner;
pub mod scanner;
pub mod text;

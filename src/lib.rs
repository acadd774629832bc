//! Repeatedly runs a shell command to find flaky failures.
//!
//! The library holds the decisions of a run: the configuration and its
//! validation, the aggregation of trial outcomes with its stop-or-continue
//! policy, the failure rate, and the layout of the final report. Spawning
//! processes, worker threads and terminal output belong to the caller.
pub mod builder;
pub mod error;
pub mod finder;
pub mod lemmas;
pub mod model;
pub mod report;

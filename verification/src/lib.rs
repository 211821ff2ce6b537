//! Tokio-style tasks and timers for JavaScript runtimes.
//!
//! This crate is the verified core: the rules by which tasks are selected,
//! aborted and joined, by which timers are armed, re-armed and fired, by which
//! intervals choose their next deadline, and by which a value is bound to the
//! thread that created it. The clock, the JavaScript timers and the polling of
//! futures are driven from outside; what they observed is handed in as plain
//! values, and what has to be done next is handed back.

pub mod duration;
pub mod ext;
pub mod native;
pub mod poll;
pub mod thread_bound;
pub mod web;

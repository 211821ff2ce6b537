//! Web backend.
//!
//! Futures are spawned as JavaScript promises, timers use `setTimeout` and
//! blocking tasks run on a pool of web workers.

pub mod channel;
pub mod global;
pub mod runtime;
pub mod task;
pub mod time;

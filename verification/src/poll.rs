//! Outcome of polling.
use vstd::prelude::*;

verus! {

/// Whether a value is available yet.
#[derive(Debug, PartialEq, Eq)]
pub enum Poll<T> {
    /// The value is available.
    Ready(T),
    /// The value is not available yet.
    Pending,
}

} // verus!

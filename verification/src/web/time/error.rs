//! Time errors.
use vstd::prelude::*;

verus! {

/// Timeout elapsed.
#[derive(Debug, Clone, Copy, PartialEq, Eq, Structural)]
pub struct Elapsed {}

impl Elapsed {
    /// Describes the error.
    pub fn to_string(&self) -> (r: String)
        ensures
            r@ == "timeout elapsed"@,
    {
        "timeout elapsed".to_string()
    }
}

} // verus!

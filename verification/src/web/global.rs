//! The JavaScript global object.
use vstd::prelude::*;

verus! {

/// Where timers are registered.
#[derive(Clone, Copy, Debug, PartialEq, Eq, Structural)]
pub enum GlobalScope {
    /// At the browser window.
    Window,
    /// At the global scope of a web worker.
    Worker,
}

/// Where timers are registered, given what the JavaScript global object is.
///
/// `None` if it is neither a browser window nor the global scope of a web worker.
pub fn global_scope(is_window: bool, is_worker: bool) -> (r: Option<GlobalScope>)
    ensures
        r == if is_window {
            Some(GlobalScope::Window)
        } else if is_worker {
            Some(GlobalScope::Worker)
        } else {
            None
        },
{
    if is_window {
        Some(GlobalScope::Window)
    } else if is_worker {
        Some(GlobalScope::Worker)
    } else {
        None
    }
}

} // verus!

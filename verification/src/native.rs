//! Native backend.
use vstd::prelude::*;

verus! {

/// Whether blocking the current thread is allowed.
///
/// This is always the case on native platforms.
pub fn is_blocking_allowed() -> (r: bool)
    ensures
        r,
{
    true
}

/// The [Send] bound required to spawn a task on this platform.
///
/// On native platforms tasks can be moved between threads and thus [Send] is
/// required.
pub trait MaybeSend: Send {

}

impl<T: Send + ?Sized> MaybeSend for T {

}

/// The [Sync] bound required to share a value between tasks on this platform.
///
/// On native platforms tasks can run on different threads and thus [Sync] is
/// required.
pub trait MaybeSync: Sync {

}

impl<T: Sync + ?Sized> MaybeSync for T {

}

} // verus!

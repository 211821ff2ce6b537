//! The runtime.
use crate::web::channel::signal_channel;
use crate::web::task::{
    BlockingDriver, BlockingTask, JoinError, JoinHandle, SpawnedTask, TaskDriver,
};
use std::future::Future;
use tokio::sync::oneshot;
use vstd::prelude::*;

verus! {

/// Error returned by [`Handle::try_current`] when no runtime is available.
#[derive(Clone, Copy, Debug, PartialEq, Eq, Structural)]
pub struct TryCurrentError;

impl TryCurrentError {
    /// The display representation of this error.
    pub fn to_string(&self) -> (r: String)
        ensures
            r@ == "no runtime available"@,
    {
        "no runtime available".to_string()
    }
}

/// Handle to the virtual runtime.
#[derive(Clone, Copy, Debug, PartialEq, Eq, Structural)]
pub struct Handle;

impl Handle {
    /// Whether this is the handle to a task, and the task itself, that was just
    /// spawned to run `future`: it has not ended, aborting over the handle reaches
    /// it and no other one, and its result arrives at the handle.
    pub open spec fn spawned<F, T, P>(
        future: F,
        handle: JoinHandle<T, P>,
        task: SpawnedTask<F, T, P>,
    ) -> bool {
        &&& task.work == future
        &&& task.driver.open()
        &&& !task.driver.ended()
        &&& handle.abortable()
        &&& handle.aborts(task.abort_rx)
        &&& forall|abort_rx: oneshot::Receiver<()>| #[trigger]
            handle.aborts(abort_rx) ==> abort_rx == task.abort_rx
        &&& handle.receiver() matches Some(result_rx) && crate::web::channel::halves(
            task.driver.channel()->Some_0,
            result_rx,
        )
        &&& handle.settled() is None
        &&& !handle.joined()
    }

    /// Whether this is the handle to a blocking function, and the task itself, that
    /// was just spawned to run `f`: it cannot be aborted, and its result arrives at
    /// the handle.
    pub open spec fn spawned_blocking<F, T, P>(
        f: F,
        handle: JoinHandle<T, P>,
        task: BlockingTask<F, T, P>,
    ) -> bool {
        &&& task.work == f
        &&& !handle.abortable()
        &&& handle.receiver() matches Some(result_rx) && crate::web::channel::halves(
            task.driver.channel(),
            result_rx,
        )
        &&& handle.settled() is None
        &&& !handle.joined()
    }

    /// Returns a Handle view over the currently running Runtime.
    pub fn current() -> (r: Self)
        ensures
            r == Handle,
    {
        Handle
    }

    /// Returns a Handle view over the currently running Runtime.
    ///
    /// On the web a runtime is always available, thus this never fails.
    pub fn try_current() -> (r: Result<Self, TryCurrentError>)
        ensures
            r == Ok::<Handle, TryCurrentError>(Handle),
    {
        Ok(Self::current())
    }

    /// Spawns a future onto the browser.
    ///
    /// Returns the handle to the task and the task itself, which has to be
    /// [driven](TaskDriver::advance) to its end.
    pub fn spawn<F: Future, P>(&self, future: F) -> (r: (
        JoinHandle<F::Output, P>,
        SpawnedTask<F, F::Output, P>,
    ))
        ensures
            Self::spawned(future, r.0, r.1),
    {
        let (result_tx, result_rx) = oneshot::channel::<Result<F::Output, JoinError<P>>>();
        let (abort_tx, abort_rx) = signal_channel();
        let handle = JoinHandle::new(result_rx, Some(abort_tx));
        let task = SpawnedTask { work: future, abort_rx, driver: TaskDriver::new(result_tx) };
        (handle, task)
    }

    /// Runs the provided function on a thread pool dedicated to blocking operations.
    ///
    /// Returns the handle to the task and the task itself, whose
    /// [outcome](BlockingDriver::finish) has to be reported. If no worker could be
    /// started for it, [the handle has to be told](JoinHandle::started).
    pub fn spawn_blocking<F: FnOnce() -> R, R, P>(&self, f: F) -> (r: (
        JoinHandle<R, P>,
        BlockingTask<F, R, P>,
    ))
        ensures
            Self::spawned_blocking(f, r.0, r.1),
    {
        let (result_tx, result_rx) = oneshot::channel::<Result<R, JoinError<P>>>();
        let handle = JoinHandle::new(result_rx, None);
        let task = BlockingTask { work: f, driver: BlockingDriver::new(result_tx) };
        (handle, task)
    }
}

} // verus!

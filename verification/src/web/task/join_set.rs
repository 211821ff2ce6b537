//! Collections of tasks.
use crate::poll::Poll;
use crate::web::channel::{
    clone_sender, is_closed, request_channel, try_request, AbortOutcome, Delivery,
};
use crate::web::runtime::Handle;
use crate::web::task::select::{AbortPoll, Selected, SetSelect};
use crate::web::task::{spawn_blocking, BlockingTask, CaughtPanic, JoinError, JoinHandle};
use tokio::sync::{mpsc, oneshot};
use vstd::prelude::*;

verus! {

/// An owned permission to abort a spawned task, without awaiting its completion.
pub struct AbortHandle(mpsc::Sender<()>);

impl AbortHandle {
    /// Whether the handle aborts the task that listens to this receiver.
    pub closed spec fn aborts(self, abort_rx: mpsc::Receiver<()>) -> bool {
        crate::web::channel::mpsc_feeds(self.0, abort_rx)
    }

    /// Whether the handle aborts the task that listens to this receiver and no other one.
    pub open spec fn aborts_only(self, abort_rx: mpsc::Receiver<()>) -> bool {
        &&& self.aborts(abort_rx)
        &&& forall|other: mpsc::Receiver<()>| #[trigger] self.aborts(other) ==> other == abort_rx
    }

    /// The number of requests to abort the task that can be outstanding.
    pub closed spec fn room(self) -> nat {
        crate::web::channel::mpsc_room(self.0)
    }

    /// Whether a request to abort the task over the handle has had this outcome.
    pub closed spec fn requested(self, outcome: AbortOutcome) -> bool {
        crate::web::channel::try_send_gave(self.0, outcome)
    }

    /// Whether the task was asked over the handle if it has finished, and this was
    /// the answer.
    pub closed spec fn asked(self, finished: bool) -> bool {
        crate::web::channel::is_closed_gave(self.0, finished)
    }

    /// Abort the task associated with the handle.
    ///
    /// Returns what became of the request, which is up to the task.
    pub fn abort(&self) -> (r: AbortOutcome)
        ensures
            r !is NotAbortable,
            self.requested(r),
    {
        try_request(&self.0)
    }

    /// Checks if the task associated with this `AbortHandle` has finished.
    ///
    /// The answer is up to the task.
    pub fn is_finished(&self) -> (r: bool)
        ensures
            self.asked(r),
    {
        is_closed(&self.0)
    }
}

impl Clone for AbortHandle {
    /// Another permission to abort the same task.
    fn clone(&self) -> (r: Self)
        ensures
            forall|abort_rx: mpsc::Receiver<()>| #[trigger]
                r.aborts(abort_rx) == self.aborts(abort_rx),
            r.room() == self.room(),
    {
        AbortHandle(clone_sender(&self.0))
    }
}

/// A task in a [`JoinSet`].
#[verifier::reject_recursive_types(T)]
pub struct TaskHandle<T> {
    /// The permission to abort the task.
    pub abort: AbortHandle,
    /// Where the result of the task arrives.
    pub result_rx: oneshot::Receiver<T>,
}

/// A collection of tasks.
///
/// Its [view](View) are its tasks, in the order in which they were spawned.
///
/// When the set is dropped, all its tasks have to be aborted immediately: whoever
/// drops it has to call [`abort_all`](JoinSet::abort_all) first. A task that was
/// aborted does not run any further.
#[verifier::reject_recursive_types(T)]
pub struct JoinSet<T> {
    tasks: Vec<TaskHandle<T>>,
}

impl<T> View for JoinSet<T> {
    type V = Seq<TaskHandle<T>>;

    closed spec fn view(&self) -> Seq<TaskHandle<T>> {
        self.tasks@
    }
}

/// What a task that was spawned on a [`JoinSet`] consists of. `F` is its work.
#[verifier::reject_recursive_types(T)]
pub struct JoinSetTask<F, T> {
    /// The work of the task.
    pub work: F,
    /// Where requests to abort the task arrive.
    pub abort_rx: mpsc::Receiver<()>,
    /// What takes note of the progress of the task.
    pub driver: JoinSetDriver<T>,
}

impl<F, T> JoinSetTask<F, T> {
    /// Whether the task was just spawned to do `work`: it has not ended and can
    /// be aborted.
    pub open spec fn spawned(self, work: F) -> bool {
        &&& self.work == work
        &&& self.driver.open()
        &&& !self.driver.ended()
    }

    /// Whether the tasks of a set became more by this one and nothing else: aborting
    /// it over the set reaches it alone, one request to abort it can be outstanding,
    /// and its result arrives at the set.
    pub open spec fn joined(
        before: Seq<TaskHandle<T>>,
        after: Seq<TaskHandle<T>>,
        task: Self,
    ) -> bool {
        &&& after.len() == before.len() + 1
        &&& after.drop_last() == before
        &&& after.last().abort.aborts_only(task.abort_rx)
        &&& after.last().abort.room() == 1
        &&& task.driver.channel() matches Some(result_tx) && crate::web::channel::halves(
            result_tx,
            after.last().result_rx,
        )
    }
}

/// Takes note of the progress of a task that was spawned on a [`JoinSet`].
#[verifier::reject_recursive_types(T)]
pub struct JoinSetDriver<T> {
    select: SetSelect,
    result_tx: Option<oneshot::Sender<T>>,
}

impl<T> JoinSetDriver<T> {
    /// Where the result of the task has to be sent, as long as it has not ended.
    pub closed spec fn channel(self) -> Option<oneshot::Sender<T>> {
        self.result_tx
    }

    /// Whether the task has ended.
    pub open spec fn ended(self) -> bool {
        self.channel() is None
    }

    /// Whether the task can still be aborted.
    pub closed spec fn open(self) -> bool {
        self.select.open()
    }

    /// Whether the abort channel has to be polled, which comes before the work.
    pub fn polls_abort(&self) -> (r: bool)
        ensures
            r == self.open(),
    {
        self.select.polls_abort()
    }

    /// Whether the work has to be polled, given what polling the abort channel gave.
    ///
    /// The work of an aborted task must not be polled.
    pub fn polls_work(&self, abort: AbortPoll) -> (r: bool)
        ensures
            r == !(self.open() && abort is Requested),
    {
        self.select.polls_work(abort)
    }

    /// Takes note of what polling the abort channel and the work gave. If the work did
    /// not have to be polled, it does not matter what is given for it.
    ///
    /// The result of completed work has to be sent to the [`JoinSet`].
    pub fn advance(&mut self, work: Poll<T>, abort: AbortPoll) -> (r: Selected<Delivery<T>>)
        requires
            !old(self).ended(),
        ensures
            final(self).open() == crate::web::task::select::stays_open_in_set(
                old(self).open(),
                abort,
            ),
            match crate::web::task::select::selected_in_set(old(self).open(), work, abort) {
                Selected::Completed(result) => {
                    &&& r matches Selected::Completed(delivery)
                    &&& delivery.value == result
                    &&& Some(delivery.tx) == old(self).channel()
                    &&& final(self).ended()
                },
                Selected::Aborted => r is Aborted && final(self).ended(),
                Selected::Pending => r is Pending && final(self).channel() == old(self).channel(),
            },
    {
        match self.select.select(work, abort) {
            Selected::Completed(value) => match self.result_tx.take() {
                Some(tx) => Selected::Completed(Delivery { value, tx }),
                None => vstd::pervasive::unreached(),
            },
            Selected::Aborted => {
                self.result_tx = None;
                Selected::Aborted
            },
            Selected::Pending => Selected::Pending,
        }
    }
}

/// What polling the work of a task that waits for a blocking function gives, given
/// what joining the function gave. If the function has failed, the task fails with
/// the error.
pub fn blocking_work<T, P>(joined: Poll<Result<T, JoinError<P>>>) -> (r: Result<
    Poll<T>,
    JoinError<P>,
>)
    ensures
        r == match joined {
            Poll::Ready(Ok(value)) => Ok(Poll::Ready(value)),
            Poll::Ready(Err(err)) => Err(err),
            Poll::Pending => Ok(Poll::Pending),
        },
{
    match joined {
        Poll::Ready(Ok(value)) => Ok(Poll::Ready(value)),
        Poll::Ready(Err(err)) => Err(err),
        Poll::Pending => Ok(Poll::Pending),
    }
}

/// What a blocking function that was spawned on a set has returned arrives at the
/// set, unless its task was aborted; if the function panicked, its task fails with
/// the panic.
///
/// `before` and `after` are the tasks of the set before and after the function was
/// spawned on it as `task` and `blocking`. `delivery` is the result as the function
/// sends it, `joined` what joining it gives once this result has arrived, `work` what
/// [`blocking_work`] makes of that, and `abort` what polling the abort channel of the
/// task gives.
pub proof fn law_set_gets_what_the_function_returned<F, T, P>(
    f: F,
    before: Seq<TaskHandle<T>>,
    after: Seq<TaskHandle<T>>,
    task: JoinSetTask<JoinHandle<T, P>, T>,
    blocking: BlockingTask<F, T, P>,
    outcome: Result<T, CaughtPanic<P>>,
    delivery: Delivery<Result<T, JoinError<P>>>,
    joined: Poll<Result<T, JoinError<P>>>,
    work: Result<Poll<T>, JoinError<P>>,
    abort: AbortPoll,
)
    requires
        Handle::spawned_blocking(f, task.work, blocking),
        task.spawned(task.work),
        JoinSetTask::joined(before, after, task),
        crate::web::task::settles(Selected::Completed(outcome), delivery.value),
        blocking.driver.channel() == delivery.tx,
        crate::web::task::joins(Poll::Ready(Ok(delivery.value)), joined),
        call_ensures(blocking_work::<T, P>, (joined,), work),
        abort !is Requested,
    ensures
        task.work.receiver() matches Some(result_rx) && crate::web::channel::halves(
            delivery.tx,
            result_rx,
        ),
        task.driver.channel() matches Some(result_tx) && crate::web::channel::halves(
            result_tx,
            after.last().result_rx,
        ),
        match outcome {
            Ok(value) => work matches Ok(polled) && crate::web::task::select::selected_in_set(
                task.driver.open(),
                polled,
                abort,
            ) == Selected::Completed(value),
            Err(panic) => work matches Err(err) && err.repr().panic_payload() == Some(
                panic.payload,
            ),
        },
{
}

impl<T> JoinSet<T> {
    /// Create a new JoinSet.
    pub fn new() -> (r: Self)
        ensures
            r@ == Seq::<TaskHandle<T>>::empty(),
    {
        JoinSet { tasks: Vec::new() }
    }

    /// Returns the number of tasks currently in the JoinSet.
    pub fn len(&self) -> (r: usize)
        ensures
            r == self@.len(),
    {
        self.tasks.len()
    }

    /// Returns whether the JoinSet is empty.
    pub fn is_empty(&self) -> (r: bool)
        ensures
            r == (self@.len() == 0),
    {
        self.tasks.len() == 0
    }

    /// Aborts all tasks on this JoinSet. They do not run any further.
    ///
    /// Returns what became of each request, in the order in which the tasks were
    /// spawned. The tasks stay in the JoinSet.
    pub fn abort_all(&mut self) -> (r: Vec<AbortOutcome>)
        ensures
            final(self)@ == old(self)@,
            r@.len() == old(self)@.len(),
            forall|i: int| 0 <= i < r@.len() ==> #[trigger] r@[i] !is NotAbortable,
            forall|i: int|
                0 <= i < r@.len() ==> (#[trigger] old(self)@[i]).abort.requested(r@[i]),
    {
        let mut outcomes: Vec<AbortOutcome> = Vec::new();
        let mut i: usize = 0;
        while i < self.tasks.len()
            invariant
                self.tasks == old(self).tasks,
                i <= self.tasks@.len(),
                outcomes@.len() == i,
                forall|j: int| 0 <= j < i ==> #[trigger] outcomes@[j] !is NotAbortable,
                forall|j: int|
                    0 <= j < i ==> (#[trigger] self.tasks@[j]).abort.requested(outcomes@[j]),
            decreases self.tasks@.len() - i,
        {
            outcomes.push(self.tasks[i].abort.abort());
            i += 1;
        }
        outcomes
    }

    /// Removes all tasks from this JoinSet without aborting them.
    pub fn detach_all(&mut self)
        ensures
            final(self)@ == Seq::<TaskHandle<T>>::empty(),
    {
        self.tasks.clear();
    }

    /// Returns a `Builder` that can be used to configure a task prior to spawning it on this `JoinSet`.
    pub fn build_task(&mut self) -> (r: Builder<'_, T>)
        ensures
            *r.join_set == *old(self),
            *final(self) == *final(r.join_set),
            r.name@ == "unnamed"@,
    {
        Builder { join_set: self, name: "unnamed" }
    }

    /// Spawn the provided work on the JoinSet, returning an [AbortHandle]
    /// that can be used to remotely cancel the task, and the task itself.
    pub fn spawn<F>(&mut self, work: F) -> (r: (AbortHandle, JoinSetTask<F, T>))
        ensures
            r.1.spawned(work),
            r.0.aborts_only(r.1.abort_rx),
            r.0.room() == 1,
            JoinSetTask::joined(old(self)@, final(self)@, r.1),
    {
        let (abort_tx, abort_rx) = request_channel(1);
        let (result_tx, result_rx) = oneshot::channel::<T>();
        let driver = JoinSetDriver { select: SetSelect::new(), result_tx: Some(result_tx) };
        let abort = AbortHandle(abort_tx);
        let task = TaskHandle { abort: abort.clone(), result_rx };
        self.tasks.push(task);
        assert(self@.drop_last() =~= old(self)@);
        (abort, JoinSetTask { work, abort_rx, driver })
    }

    /// Spawn the provided blocking function on the JoinSet, returning an [AbortHandle]
    /// that can be used to remotely cancel the task, the task itself and the function.
    ///
    /// The task waits for the function, which runs on a thread pool.
    pub fn spawn_blocking<F: FnOnce() -> T, P>(&mut self, f: F) -> (r: (
        AbortHandle,
        JoinSetTask<JoinHandle<T, P>, T>,
        BlockingTask<F, T, P>,
    ))
        ensures
            Handle::spawned_blocking(f, r.1.work, r.2),
            r.1.spawned(r.1.work),
            r.0.aborts_only(r.1.abort_rx),
            r.0.room() == 1,
            JoinSetTask::joined(old(self)@, final(self)@, r.1),
    {
        let (handle, blocking) = spawn_blocking(f);
        let (abort, task) = self.spawn(handle);
        (abort, task, blocking)
    }
}

impl<T> Default for JoinSet<T> {
    fn default() -> (r: Self)
        ensures
            r@ == Seq::<TaskHandle<T>>::empty(),
    {
        Self::new()
    }
}

/// Factory which is used to configure the properties of a task spawned on a [`JoinSet`].
#[verifier::reject_recursive_types(T)]
pub struct Builder<'a, T> {
    /// Where the task will be spawned.
    pub join_set: &'a mut JoinSet<T>,
    /// Name of the task.
    pub name: &'a str,
}

impl<'a, T> Builder<'a, T> {
    /// Assigns a name to the task which will be spawned.
    ///
    /// Task names are unsupported on the web and the name is dropped.
    pub fn name(self, name: &'a str) -> (r: Self)
        ensures
            r.name == name,
            *r.join_set == *old(self.join_set),
            *final(r.join_set) == *final(self.join_set),
    {
        Builder { join_set: self.join_set, name }
    }

    /// Spawn the provided work on the JoinSet, returning an [AbortHandle]
    /// that can be used to remotely cancel the task, and the task itself.
    pub fn spawn<F>(self, work: F) -> (r: Result<(AbortHandle, JoinSetTask<F, T>), std::io::Error>)
        ensures
            r is Ok,
            r->Ok_0.1.spawned(work),
            r->Ok_0.0.aborts_only(r->Ok_0.1.abort_rx),
            r->Ok_0.0.room() == 1,
            JoinSetTask::joined(old(self.join_set)@, final(self.join_set)@, r->Ok_0.1),
    {
        Ok(self.join_set.spawn(work))
    }

    /// Spawn the provided blocking function on the JoinSet, returning an [AbortHandle]
    /// that can be used to remotely cancel the task, the task itself and the function.
    ///
    /// The task waits for the function, which runs on a thread pool.
    pub fn spawn_blocking<F: FnOnce() -> T, P>(self, f: F) -> (r: Result<
        (AbortHandle, JoinSetTask<JoinHandle<T, P>, T>, BlockingTask<F, T, P>),
        std::io::Error,
    >)
        ensures
            r is Ok,
            Handle::spawned_blocking(f, r->Ok_0.1.work, r->Ok_0.2),
            r->Ok_0.1.spawned(r->Ok_0.1.work),
            r->Ok_0.0.aborts_only(r->Ok_0.1.abort_rx),
            r->Ok_0.0.room() == 1,
            JoinSetTask::joined(old(self.join_set)@, final(self.join_set)@, r->Ok_0.1),
    {
        Ok(self.join_set.spawn_blocking(f))
    }
}

/// The specification functions of an abort handle and of a driver show their fields.
proof fn law_abort_handles_show_their_channel<T>(
    handle: AbortHandle,
    abort_rx: mpsc::Receiver<()>,
    outcome: AbortOutcome,
    finished: bool,
    driver: JoinSetDriver<T>,
    set: JoinSet<T>,
)
    ensures
        handle.aborts(abort_rx) <==> crate::web::channel::mpsc_feeds(handle.0, abort_rx),
        handle.requested(outcome) <==> crate::web::channel::try_send_gave(handle.0, outcome),
        handle.asked(finished) <==> crate::web::channel::is_closed_gave(handle.0, finished),
        handle.room() == crate::web::channel::mpsc_room(handle.0),
        driver.channel() == driver.result_tx,
        driver.open() == driver.select.open(),
        set@ == set.tasks@,
{
}

/// Aborting over a handle, asking over it and cloning it go to the task of the handle:
/// the request is made over its channel, and the clone belongs to the same channel.
proof fn law_handle_uses_its_channel(
    handle: AbortHandle,
    outcome: AbortOutcome,
    finished: bool,
    copy: AbortHandle,
    abort_rx: mpsc::Receiver<()>,
)
    requires
        call_ensures(AbortHandle::abort, (&handle,), outcome),
        call_ensures(AbortHandle::is_finished, (&handle,), finished),
        call_ensures(<AbortHandle as Clone>::clone, (&handle,), copy),
    ensures
        crate::web::channel::try_send_gave(handle.0, outcome),
        outcome !is NotAbortable,
        crate::web::channel::is_closed_gave(handle.0, finished),
        crate::web::channel::mpsc_feeds(copy.0, abort_rx) <==> crate::web::channel::mpsc_feeds(
            handle.0,
            abort_rx,
        ),
        crate::web::channel::mpsc_room(copy.0) == crate::web::channel::mpsc_room(handle.0),
{
    assert(copy.aborts(abort_rx) == handle.aborts(abort_rx));
}

/// Aborting all tasks of a set makes a request to each of them, over its own channel,
/// and leaves the set as it is.
proof fn law_every_task_is_requested_to_abort<T>(
    set: &mut JoinSet<T>,
    outcomes: Vec<AbortOutcome>,
    index: int,
)
    requires
        call_ensures(JoinSet::<T>::abort_all, (set,), outcomes),
        0 <= index < set.tasks@.len(),
    ensures
        outcomes@.len() == old(set).tasks@.len(),
        crate::web::channel::try_send_gave(old(set).tasks@[index].abort.0, outcomes@[index]),
        outcomes@[index] !is NotAbortable,
        final(set).tasks@ == old(set).tasks@,
{
    assert(set@[index] == set.tasks@[index]);
    assert(set@[index].abort.requested(outcomes@[index]));
}

/// Spawning work on a set adds one task to it and leaves the others as they are. The
/// returned handle and the one in the set reach the new task and no other one, and one
/// request can be outstanding.
pub proof fn law_spawning_adds_a_task<F, T>(
    set: &mut JoinSet<T>,
    work: F,
    spawned: (AbortHandle, JoinSetTask<F, T>),
    before: usize,
    after: usize,
    abort_rx: mpsc::Receiver<()>,
)
    requires
        call_ensures(JoinSet::<T>::len, (&*set,), before),
        call_ensures(JoinSet::<T>::spawn::<F>, (set, work), spawned),
        call_ensures(JoinSet::<T>::len, (&*final(set),), after),
    ensures
        after == before + 1,
        final(set)@.len() == after,
        final(set)@ == old(set)@.push(final(set)@.last()),
        spawned.1.work == work,
        spawned.0.aborts(abort_rx) <==> abort_rx == spawned.1.abort_rx,
        final(set)@.last().abort.aborts(abort_rx) <==> abort_rx == spawned.1.abort_rx,
        spawned.0.room() == 1,
        final(set)@.last().abort.room() == 1,
{
    assert(final(set)@ =~= final(set)@.drop_last().push(final(set)@.last()));
}

/// A task that was just spawned on a set, polled once: it is aborted, without its work
/// being polled, if this was requested; otherwise it completes with the result of its
/// work, which is sent into the channel whose receiver the set holds, or goes on.
pub proof fn law_first_poll_of_a_spawned_set_task<F, T>(
    set: &mut JoinSet<T>,
    work: F,
    spawned: (AbortHandle, JoinSetTask<F, T>),
    driver: &mut JoinSetDriver<T>,
    polled: Poll<T>,
    abort: AbortPoll,
    polls_abort: bool,
    polls_work: bool,
    progress: Selected<Delivery<T>>,
)
    requires
        call_ensures(JoinSet::<T>::spawn::<F>, (set, work), spawned),
        *driver == spawned.1.driver,
        call_ensures(JoinSetDriver::<T>::polls_abort, (&*driver,), polls_abort),
        call_ensures(JoinSetDriver::<T>::polls_work, (&*driver, abort), polls_work),
        call_ensures(JoinSetDriver::<T>::advance, (driver, polled, abort), progress),
    ensures
        polls_abort,
        polls_work <==> abort !is Requested,
        abort is Requested ==> progress is Aborted,
        abort !is Requested ==> match polled {
            Poll::Ready(value) => {
                &&& progress matches Selected::Completed(delivery)
                &&& delivery.value == value
                &&& call_ensures(
                    oneshot::channel::<T>,
                    (),
                    (delivery.tx, final(set)@.last().result_rx),
                )
            },
            Poll::Pending => progress is Pending,
        },
{
}

/// Spawning a blocking function on a set adds a task that waits for the function, and
/// the function reports into the channel whose receiver the task waits at.
pub proof fn law_spawning_a_function_adds_a_task<F: FnOnce() -> T, T, P>(
    set: &mut JoinSet<T>,
    f: F,
    spawned: (AbortHandle, JoinSetTask<JoinHandle<T, P>, T>, BlockingTask<F, T, P>),
    abort_rx: mpsc::Receiver<()>,
)
    requires
        call_ensures(JoinSet::<T>::spawn_blocking::<F, P>, (set, f), spawned),
    ensures
        final(set)@ == old(set)@.push(final(set)@.last()),
        spawned.2.work == f,
        spawned.0.aborts(abort_rx) <==> abort_rx == spawned.1.abort_rx,
        final(set)@.last().abort.aborts(abort_rx) <==> abort_rx == spawned.1.abort_rx,
        spawned.1.work.receiver() matches Some(result_rx) && call_ensures(
            oneshot::channel::<Result<T, JoinError<P>>>,
            (),
            (spawned.2.driver.channel(), result_rx),
        ),
        spawned.1.driver.channel() matches Some(result_tx) && call_ensures(
            oneshot::channel::<T>,
            (),
            (result_tx, final(set)@.last().result_rx),
        ),
{
    assert(final(set)@ =~= final(set)@.drop_last().push(final(set)@.last()));
}

/// A new set is empty, and so is one whose tasks were detached; a set is empty exactly
/// if it has no task.
pub proof fn law_empty_sets<T>(
    fresh: JoinSet<T>,
    default: JoinSet<T>,
    detaching: &mut JoinSet<T>,
    set: JoinSet<T>,
    len: usize,
    empty: bool,
)
    requires
        call_ensures(JoinSet::<T>::new, (), fresh),
        call_ensures(<JoinSet<T> as Default>::default, (), default),
        call_ensures(JoinSet::<T>::detach_all, (detaching,), ()),
        call_ensures(JoinSet::<T>::len, (&set,), len),
        call_ensures(JoinSet::<T>::is_empty, (&set,), empty),
    ensures
        fresh@.len() == 0,
        default@.len() == 0,
        final(detaching)@.len() == 0,
        len == set@.len(),
        empty <==> len == 0,
{
}

/// A builder spawns on the set that it was made for what the set itself spawns, whatever
/// the name is, and never fails.
pub proof fn law_builder_spawns_on_its_set<F, T>(
    set: &mut JoinSet<T>,
    built: Builder<'_, T>,
    name: &str,
    named: Builder<'_, T>,
    work: F,
    spawned: Result<(AbortHandle, JoinSetTask<F, T>), std::io::Error>,
    abort_rx: mpsc::Receiver<()>,
)
    requires
        call_ensures(JoinSet::<T>::build_task, (set,), built),
        call_ensures(Builder::<T>::name, (built, name), named),
        call_ensures(Builder::<T>::spawn::<F>, (named, work), spawned),
    ensures
        built.name@ == "unnamed"@,
        named.name == name,
        spawned is Ok,
        final(set)@ == old(set)@.push(final(set)@.last()),
        spawned->Ok_0.1.work == work,
        spawned->Ok_0.0.aborts(abort_rx) <==> abort_rx == spawned->Ok_0.1.abort_rx,
        final(set)@.last().abort.aborts(abort_rx) <==> abort_rx == spawned->Ok_0.1.abort_rx,
        spawned->Ok_0.1.driver.open(),
        spawned->Ok_0.1.driver.channel() matches Some(result_tx) && call_ensures(
            oneshot::channel::<T>,
            (),
            (result_tx, final(set)@.last().result_rx),
        ),
{
    assert(final(set)@ =~= final(set)@.drop_last().push(final(set)@.last()));
}

/// A poll of a task of a set that has not ended, in full. `open` is whether its abort
/// channel has to be polled, before and after. The channel over which it reports stays
/// the same until it reports.
pub proof fn law_poll_of_a_spawned_set_task<T>(
    driver: &mut JoinSetDriver<T>,
    open: bool,
    work: Poll<T>,
    abort: AbortPoll,
    polls_work: bool,
    progress: Selected<Delivery<T>>,
    open_after: bool,
)
    requires
        driver.channel() is Some,
        call_ensures(JoinSetDriver::<T>::polls_abort, (&*driver,), open),
        call_ensures(JoinSetDriver::<T>::polls_work, (&*driver, abort), polls_work),
        call_ensures(JoinSetDriver::<T>::advance, (driver, work, abort), progress),
        call_ensures(JoinSetDriver::<T>::polls_abort, (&*final(driver),), open_after),
    ensures
        polls_work <==> !(open && abort is Requested),
        !polls_work ==> progress is Aborted && final(driver).channel() is None,
        polls_work ==> match work {
            Poll::Ready(value) => {
                &&& progress matches Selected::Completed(delivery)
                &&& delivery.value == value
                &&& Some(delivery.tx) == old(driver).channel()
                &&& final(driver).channel() is None
            },
            Poll::Pending => progress is Pending && final(driver).channel() == old(driver).channel(),
        },
        open_after <==> open && abort !is Closed,
{
}

} // verus!

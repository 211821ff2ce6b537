//! Asynchronous green-threads.
use crate::poll::Poll;
use crate::web::channel::{signal, AbortOutcome, Delivery};
use crate::web::runtime::Handle;
use crate::web::task::select::{AbortPoll, Selected, TaskSelect};
use std::future::Future;
use tokio::sync::oneshot;
use vstd::prelude::*;

pub mod join_set;
pub mod select;

verus! {

/// The error of a failed operating system request.
#[verifier::external_type_specification]
#[verifier::external_body]
pub struct ExIoError(std::io::Error);

/// The [`Display`](std::fmt::Display) representation of a [`std::io::Error`].
/// Nothing is claimed of it: it may depend on the locale.
#[verifier::external_body]
fn io_error_display(err: &std::io::Error) -> (r: String) {
    err.to_string()
}

/// The [`Debug`](std::fmt::Debug) representation of a [`std::io::Error`].
/// Nothing is claimed of it: it may depend on the locale.
#[verifier::external_body]
fn io_error_debug(err: &std::io::Error) -> (r: String) {
    format!("{:?}", err)
}

/// Whether the error was displayed as this text.
pub closed spec fn displayed(err: std::io::Error, text: String) -> bool {
    call_ensures(io_error_display, (&err,), text)
}

/// Whether the debug representation of the error was this text.
pub closed spec fn debugged(err: std::io::Error, text: String) -> bool {
    call_ensures(io_error_debug, (&err,), text)
}

/// The [`Debug`](std::fmt::Debug) representation of a string: the string in
/// double quotes, with special characters escaped.
pub uninterp spec fn quoted(text: Seq<char>) -> Seq<char>;

/// The [`Debug`](std::fmt::Debug) representation of a [`str`] depends on its
/// characters alone.
#[verifier::external_body]
fn quote(text: &str) -> (r: String)
    ensures
        r@ == quoted(text@),
{
    format!("{:?}", text)
}

/// A panic that was caught. `P` is the type of its payload.
pub struct CaughtPanic<P> {
    /// The object with which the task panicked.
    pub payload: P,
    /// The payload, if it is a [`String`].
    pub string: Option<String>,
    /// The payload, if it is a string literal.
    pub literal: Option<&'static str>,
}

impl<P> CaughtPanic<P> {
    /// The message with which the task panicked, if there was one.
    pub open spec fn message(self) -> Option<Seq<char>> {
        match (self.string, self.literal) {
            (Some(string), _) => Some(string@),
            (None, Some(literal)) => Some(literal@),
            (None, None) => None,
        }
    }
}

/// Reason for which a task failed. `P` is the type of the payload of a panic.
pub enum JoinErrorRepr<P> {
    /// Aborted.
    Aborted,
    /// Panicked.
    Panicked {
        /// The message, extracted from the payload.
        msg: Option<String>,
        /// The object with which the task panicked.
        payload: P,
    },
    /// Thread failed.
    Failed,
    /// Spawning worker thread failed.
    Spawn(std::io::Error),
}

impl<P> JoinErrorRepr<P> {
    /// Whether this is the error of a task that panicked in the way of `panic`.
    pub open spec fn reports(self, panic: CaughtPanic<P>) -> bool {
        self matches JoinErrorRepr::Panicked { msg, payload } && payload == panic.payload && (
        match msg {
            Some(msg) => panic.message() == Some(msg@),
            None => panic.message() is None,
        })
    }

    /// The object with which the task panicked.
    pub open spec fn panic_payload(self) -> Option<P> {
        match self {
            JoinErrorRepr::Panicked { payload, .. } => Some(payload),
            _ => None,
        }
    }

    /// Builds a panic error from a caught panic.
    pub fn panicked(panic: CaughtPanic<P>) -> (r: Self)
        ensures
            r.reports(panic),
    {
        let msg = match panic.string {
            Some(string) => Some(string),
            None => match panic.literal {
                Some(literal) => Some(literal.to_string()),
                None => None,
            },
        };
        JoinErrorRepr::Panicked { msg, payload: panic.payload }
    }

    /// The display representation, given that of the error with which spawning failed.
    pub open spec fn display(self, spawn_error: Seq<char>) -> Seq<char> {
        match self {
            JoinErrorRepr::Aborted => "task was cancelled"@,
            JoinErrorRepr::Panicked { msg: Some(msg), .. } => "task panicked with message "@
                + msg@,
            JoinErrorRepr::Panicked { msg: None, .. } => "task panicked"@,
            JoinErrorRepr::Failed => "task failed"@,
            JoinErrorRepr::Spawn(_) => "spawning worker failed: "@ + spawn_error,
        }
    }

    /// The debug representation, given those of the panic message and of the
    /// error with which spawning failed.
    pub open spec fn debug(self, message: Seq<char>, spawn_error: Seq<char>) -> Seq<char> {
        match self {
            JoinErrorRepr::Aborted => "Aborted"@,
            JoinErrorRepr::Panicked { .. } => "Panicked("@ + message + ")"@,
            JoinErrorRepr::Failed => "Failed"@,
            JoinErrorRepr::Spawn(_) => "Spawn("@ + spawn_error + ")"@,
        }
    }

    /// What stands for the panic message in the debug representation.
    pub open spec fn shown_message(self) -> Seq<char> {
        match self {
            JoinErrorRepr::Panicked { msg: Some(msg), .. } => msg@,
            _ => "..."@,
        }
    }
}

/// Task failed to execute to completion. `P` is the type of the payload of a panic.
pub struct JoinError<P>(JoinErrorRepr<P>);

impl<P> JoinError<P> {
    /// The reason for which the task failed.
    pub closed spec fn repr(self) -> JoinErrorRepr<P> {
        self.0
    }

    /// The error of a task that failed for the specified reason.
    pub fn new(repr: JoinErrorRepr<P>) -> (r: Self)
        ensures
            r.repr() == repr,
    {
        JoinError(repr)
    }

    /// The reason for which the task failed.
    pub fn reason(&self) -> (r: &JoinErrorRepr<P>)
        ensures
            *r == self.repr(),
    {
        &self.0
    }

    /// Returns true if the error was caused by the task being cancelled.
    pub fn is_cancelled(&self) -> (r: bool)
        ensures
            r == (self.repr() is Aborted),
    {
        matches!(&self.0, JoinErrorRepr::Aborted)
    }

    /// Returns true if the error was caused by thread failure.
    pub fn is_failed(&self) -> (r: bool)
        ensures
            r == (self.repr() is Failed),
    {
        matches!(&self.0, JoinErrorRepr::Failed)
    }

    /// Returns true if the error was caused by the task panicking.
    pub fn is_panic(&self) -> (r: bool)
        ensures
            r == (self.repr() is Panicked),
    {
        matches!(&self.0, JoinErrorRepr::Panicked { .. })
    }

    /// Returns true if the error was caused by worker thread spawning failure.
    pub fn is_spawn(&self) -> (r: bool)
        ensures
            r == (self.repr() is Spawn),
    {
        matches!(&self.0, JoinErrorRepr::Spawn(_))
    }

    /// Consumes the join error, returning the object with which the task panicked.
    pub fn into_panic(self) -> (r: P)
        requires
            self.repr() is Panicked,
        ensures
            self.repr().panic_payload() == Some(r),
    {
        match self.try_into_panic() {
            Ok(payload) => payload,
            Err(_) => vstd::pervasive::unreached(),
        }
    }

    /// Consumes the join error, returning the object with which the task
    /// panicked if the task terminated due to a panic. Otherwise, `self` is
    /// returned.
    pub fn try_into_panic(self) -> (r: Result<P, JoinError<P>>)
        ensures
            r == match self.repr().panic_payload() {
                Some(payload) => Ok(payload),
                None => Err(self),
            },
    {
        match self.0 {
            JoinErrorRepr::Panicked { payload, .. } => Ok(payload),
            repr => Err(JoinError(repr)),
        }
    }

    /// The display representation of this error, given that of the error with
    /// which spawning failed.
    pub fn display_with(&self, spawn_error: &str) -> (r: String)
        ensures
            r@ == self.repr().display(spawn_error@),
    {
        match &self.0 {
            JoinErrorRepr::Aborted => "task was cancelled".to_string(),
            JoinErrorRepr::Panicked { msg, .. } => match msg {
                Some(msg) => "task panicked with message ".to_string().concat(msg.as_str()),
                None => "task panicked".to_string(),
            },
            JoinErrorRepr::Failed => "task failed".to_string(),
            JoinErrorRepr::Spawn(_) => "spawning worker failed: ".to_string().concat(spawn_error),
        }
    }

    /// The display representation of this error.
    pub fn to_string(&self) -> (r: String)
        ensures
            match self.repr() {
                JoinErrorRepr::Spawn(err) => exists|text: String| #[trigger]
                    displayed(err, text) && r@ == self.repr().display(text@),
                _ => r@ == self.repr().display(""@),
            },
    {
        match &self.0 {
            JoinErrorRepr::Spawn(err) => {
                let text = io_error_display(err);
                assert(displayed(*err, text));
                self.display_with(text.as_str())
            },
            _ => self.display_with(""),
        }
    }

    /// The debug representation of this error, given those of the panic message
    /// and of the error with which spawning failed.
    pub fn debug_with(&self, message: &str, spawn_error: &str) -> (r: String)
        ensures
            r@ == self.repr().debug(message@, spawn_error@),
    {
        match &self.0 {
            JoinErrorRepr::Aborted => "Aborted".to_string(),
            JoinErrorRepr::Panicked { .. } => "Panicked(".to_string().concat(message).concat(")"),
            JoinErrorRepr::Failed => "Failed".to_string(),
            JoinErrorRepr::Spawn(_) => "Spawn(".to_string().concat(spawn_error).concat(")"),
        }
    }

    /// The debug representation of this error.
    pub fn to_debug(&self) -> (r: String)
        ensures
            match self.repr() {
                JoinErrorRepr::Spawn(err) => exists|text: String| #[trigger]
                    debugged(err, text) && r@ == self.repr().debug(
                        quoted(self.repr().shown_message()),
                        text@,
                    ),
                _ => r@ == self.repr().debug(quoted(self.repr().shown_message()), ""@),
            },
    {
        let message = match &self.0 {
            JoinErrorRepr::Panicked { msg: Some(msg), .. } => quote(msg.as_str()),
            _ => quote("..."),
        };
        assert(message@ == quoted(self.repr().shown_message()));
        match &self.0 {
            JoinErrorRepr::Spawn(err) => {
                let text = io_error_debug(err);
                assert(debugged(*err, text));
                self.debug_with(message.as_str(), text.as_str())
            },
            _ => self.debug_with(message.as_str(), ""),
        }
    }
}

/// Every failure has exactly one cause.
pub proof fn law_failure_has_one_cause<P>(error: JoinError<P>)
    ensures
        error.repr() is Aborted || error.repr() is Panicked || error.repr() is Failed
            || error.repr() is Spawn,
        error.repr() is Aborted ==> !(error.repr() is Panicked) && !(error.repr() is Failed) && !(
        error.repr() is Spawn),
        error.repr() is Panicked ==> !(error.repr() is Failed) && !(error.repr() is Spawn),
        error.repr() is Failed ==> !(error.repr() is Spawn),
{
}

/// The object with which a task panicked, and nothing else, comes out of the
/// error that reports the panic.
pub proof fn law_panic_payload_comes_back<P>(error: JoinError<P>, panic: CaughtPanic<P>)
    ensures
        error.repr().reports(panic) ==> error.repr().panic_payload() == Some(panic.payload),
        error.repr().panic_payload() is Some <==> error.repr() is Panicked,
{
}

/// Whether this is the result of a task that has come to `selected`.
pub open spec fn settles<T, P>(
    selected: Selected<Result<T, CaughtPanic<P>>>,
    result: Result<T, JoinError<P>>,
) -> bool {
    match selected {
        Selected::Completed(Ok(value)) => result == Ok::<T, JoinError<P>>(value),
        Selected::Completed(Err(panic)) => result matches Err(err) && err.repr().reports(panic),
        Selected::Aborted => result matches Err(err) && err.repr() is Aborted,
        Selected::Pending => false,
    }
}

/// The result of a task that has come to `selected`.
pub fn settle<T, P>(selected: Selected<Result<T, CaughtPanic<P>>>) -> (r: Poll<
    Result<T, JoinError<P>>,
>)
    ensures
        match selected {
            Selected::Pending => r is Pending,
            _ => r matches Poll::Ready(result) && settles(selected, result),
        },
{
    match selected {
        Selected::Completed(Ok(value)) => Poll::Ready(Ok(value)),
        Selected::Completed(Err(panic)) => Poll::Ready(
            Err(JoinError(JoinErrorRepr::panicked(panic))),
        ),
        Selected::Aborted => Poll::Ready(Err(JoinError(JoinErrorRepr::Aborted))),
        Selected::Pending => Poll::Pending,
    }
}

/// Takes note of the progress of a spawned task.
#[verifier::reject_recursive_types(T)]
#[verifier::reject_recursive_types(P)]
pub struct TaskDriver<T, P> {
    select: TaskSelect,
    result_tx: Option<oneshot::Sender<Result<T, JoinError<P>>>>,
}

impl<T, P> TaskDriver<T, P> {
    /// Where the result of the task has to be sent, as long as it has not ended.
    pub closed spec fn channel(self) -> Option<oneshot::Sender<Result<T, JoinError<P>>>> {
        self.result_tx
    }

    /// Whether the task has ended.
    pub open spec fn ended(self) -> bool {
        self.channel() is None
    }

    /// Whether the task can still be aborted.
    pub closed spec fn open(self) -> bool {
        self.select.open()
    }

    /// For a task that was just started and reports its result over this channel.
    pub(crate) fn new(result_tx: oneshot::Sender<Result<T, JoinError<P>>>) -> (r: Self)
        ensures
            r.channel() == Some(result_tx),
            r.open(),
    {
        TaskDriver { select: TaskSelect::new(), result_tx: Some(result_tx) }
    }

    /// Whether the abort channel has to be polled, given what polling the work gave.
    pub fn polls_abort(&self, work: &Poll<Result<T, CaughtPanic<P>>>) -> (r: bool)
        ensures
            r == (self.open() && work is Pending),
    {
        self.select.polls_abort(work)
    }

    /// Takes note of what polling the work and the abort channel gave.
    ///
    /// The result of a task that has ended has to be sent to its [`JoinHandle`].
    pub fn advance(
        &mut self,
        work: Poll<Result<T, CaughtPanic<P>>>,
        abort: AbortPoll,
    ) -> (r: Poll<Delivery<Result<T, JoinError<P>>>>)
        requires
            !old(self).ended(),
        ensures
            final(self).open() == select::stays_open(old(self).open(), work, abort),
            match select::selected(old(self).open(), work, abort) {
                Selected::Pending => r is Pending && final(self).channel() == old(self).channel(),
                ended => {
                    &&& r matches Poll::Ready(delivery)
                    &&& settles(ended, delivery.value)
                    &&& Some(delivery.tx) == old(self).channel()
                    &&& final(self).ended()
                },
            },
    {
        match settle(self.select.select(work, abort)) {
            Poll::Ready(value) => match self.result_tx.take() {
                Some(tx) => Poll::Ready(Delivery { value, tx }),
                None => vstd::pervasive::unreached(),
            },
            Poll::Pending => Poll::Pending,
        }
    }
}

/// What a spawned task consists of. `F` is its work.
#[verifier::reject_recursive_types(T)]
#[verifier::reject_recursive_types(P)]
pub struct SpawnedTask<F, T, P> {
    /// The work of the task.
    pub work: F,
    /// Where a request to abort the task arrives.
    pub abort_rx: oneshot::Receiver<()>,
    /// What takes note of the progress of the task.
    pub driver: TaskDriver<T, P>,
}

/// Takes note of the outcome of a spawned blocking function.
#[verifier::reject_recursive_types(T)]
#[verifier::reject_recursive_types(P)]
pub struct BlockingDriver<T, P> {
    result_tx: oneshot::Sender<Result<T, JoinError<P>>>,
}

impl<T, P> BlockingDriver<T, P> {
    /// Where the result of the function has to be sent.
    pub closed spec fn channel(self) -> oneshot::Sender<Result<T, JoinError<P>>> {
        self.result_tx
    }

    /// For a function that reports its result over this channel.
    pub(crate) fn new(result_tx: oneshot::Sender<Result<T, JoinError<P>>>) -> (r: Self)
        ensures
            r.channel() == result_tx,
    {
        BlockingDriver { result_tx }
    }

    /// Takes note of the outcome of the function, whose result has to be sent to
    /// its [`JoinHandle`].
    pub fn finish(self, outcome: Result<T, CaughtPanic<P>>) -> (r: Delivery<
        Result<T, JoinError<P>>,
    >)
        ensures
            settles(Selected::Completed(outcome), r.value),
            r.tx == self.channel(),
    {
        match settle(Selected::Completed(outcome)) {
            Poll::Ready(value) => Delivery { value, tx: self.result_tx },
            Poll::Pending => vstd::pervasive::unreached(),
        }
    }
}

/// What a spawned blocking function consists of.
#[verifier::reject_recursive_types(T)]
#[verifier::reject_recursive_types(P)]
pub struct BlockingTask<F, T, P> {
    /// The function.
    pub work: F,
    /// What takes note of the outcome of the function.
    pub driver: BlockingDriver<T, P>,
}

/// An owned permission to join on a task (await its termination).
#[verifier::reject_recursive_types(T)]
#[verifier::reject_recursive_types(P)]
pub struct JoinHandle<T, P> {
    /// Where the result of the task arrives, as long as it is waited for.
    pub result_rx: Option<oneshot::Receiver<Result<T, JoinError<P>>>>,
    settled: Option<Result<T, JoinError<P>>>,
    abort_tx: Option<oneshot::Sender<()>>,
}

/// Whether `result` is what joining a task gives, given what was received from it.
pub open spec fn joins<T, P>(
    received: Poll<Result<Result<T, JoinError<P>>, oneshot::error::RecvError>>,
    result: Poll<Result<T, JoinError<P>>>,
) -> bool {
    match received {
        Poll::Ready(Ok(sent)) => result == Poll::Ready(sent),
        Poll::Ready(Err(_)) => result matches Poll::Ready(Err(err)) && err.repr() is Failed,
        Poll::Pending => result is Pending,
    }
}

impl<T, P> JoinHandle<T, P> {
    /// The result of the task, if it is settled without waiting for the task.
    pub closed spec fn settled(self) -> Option<Result<T, JoinError<P>>> {
        self.settled
    }

    /// Where the result of the task arrives, as long as it is waited for.
    pub closed spec fn receiver(self) -> Option<oneshot::Receiver<Result<T, JoinError<P>>>> {
        self.result_rx
    }

    /// Whether the task can be aborted over this handle.
    pub closed spec fn abortable(self) -> bool {
        self.abort_tx is Some
    }

    /// Whether aborting over this handle reaches the task that listens to this receiver.
    pub closed spec fn aborts(self, abort_rx: oneshot::Receiver<()>) -> bool {
        self.abort_tx matches Some(abort_tx) && crate::web::channel::oneshot_feeds(
            abort_tx,
            abort_rx,
        )
    }

    /// Whether requesting the task to abort over this handle has had this outcome:
    /// whether the request could be sent.
    pub closed spec fn requested(self, sent: bool) -> bool {
        self.abort_tx matches Some(abort_tx) && crate::web::channel::signal_gave(abort_tx, sent)
    }

    /// Whether the result of the task was taken already.
    pub open spec fn joined(self) -> bool {
        self.settled() is None && self.receiver() is None
    }

    /// A handle to a task that reports its result over the one channel and can be
    /// aborted over the other one, if there is one.
    pub(crate) fn new(
        result_rx: oneshot::Receiver<Result<T, JoinError<P>>>,
        abort_tx: Option<oneshot::Sender<()>>,
    ) -> (r: Self)
        ensures
            r.receiver() == Some(result_rx),
            r.settled() is None,
            r.abortable() == (abort_tx is Some),
            abort_tx matches Some(tx) ==> forall|abort_rx: oneshot::Receiver<()>| #[trigger]
                r.aborts(abort_rx) == crate::web::channel::oneshot_feeds(tx, abort_rx),
    {
        JoinHandle { result_rx: Some(result_rx), settled: None, abort_tx }
    }

    /// The handle to a blocking function, given whether a worker could be started
    /// for it. If not, joining it reports the error.
    pub fn started(self, started: Result<(), std::io::Error>) -> (r: Self)
        ensures
            match started {
                Ok(()) => r == self,
                Err(err) => {
                    &&& r.settled() matches Some(Err(reported))
                    &&& reported.repr() == JoinErrorRepr::<P>::Spawn(err)
                    &&& r.receiver() is None
                    &&& !r.abortable()
                },
            },
    {
        match started {
            Ok(()) => self,
            Err(err) => JoinHandle {
                result_rx: None,
                settled: Some(Err(JoinError(JoinErrorRepr::Spawn(err)))),
                abort_tx: None,
            },
        }
    }

    /// Joins the task, given what polling the [receiver](Self::result_rx) gave.
    ///
    /// If there is no receiver, the result is settled and it does not matter what
    /// is given.
    pub fn poll(
        &mut self,
        received: Poll<Result<Result<T, JoinError<P>>, oneshot::error::RecvError>>,
    ) -> (r: Poll<Result<T, JoinError<P>>>)
        requires
            !old(self).joined(),
        ensures
            match old(self).settled() {
                Some(result) => r == Poll::Ready(result),
                None => joins(received, r),
            },
            r is Ready ==> final(self).joined(),
            r is Pending ==> *final(self) == *old(self),
            final(self).abortable() == old(self).abortable(),
            forall|abort_rx: oneshot::Receiver<()>| #[trigger]
                final(self).aborts(abort_rx) == old(self).aborts(abort_rx),
    {
        let settled = self.settled.take();
        match settled {
            Some(result) => {
                self.result_rx = None;
                Poll::Ready(result)
            },
            None => match received {
                Poll::Ready(sent) => {
                    self.result_rx = None;
                    match sent {
                        Ok(result) => Poll::Ready(result),
                        Err(_) => Poll::Ready(Err(JoinError(JoinErrorRepr::Failed))),
                    }
                },
                Poll::Pending => Poll::Pending,
            },
        }
    }

    /// Abort the task associated with the handle.
    ///
    /// Returns what became of the request. Whether the task is still there is up
    /// to the task; a task is requested to abort at most once.
    pub fn abort(&mut self) -> (r: AbortOutcome)
        ensures
            match r {
                AbortOutcome::Requested => old(self).requested(true),
                AbortOutcome::TaskGone => old(self).requested(false),
                AbortOutcome::NotAbortable => !old(self).abortable(),
                AbortOutcome::AlreadyRequested => false,
            },
            !old(self).abortable() ==> r is NotAbortable,
            !final(self).abortable(),
            final(self).settled() == old(self).settled(),
            final(self).receiver() == old(self).receiver(),
    {
        match self.abort_tx.take() {
            Some(abort_tx) => if signal(abort_tx) {
                AbortOutcome::Requested
            } else {
                AbortOutcome::TaskGone
            },
            None => AbortOutcome::NotAbortable,
        }
    }
}

/// Spawns a future onto the browser.
pub fn spawn<F: Future, P>(future: F) -> (r: (
    JoinHandle<F::Output, P>,
    SpawnedTask<F, F::Output, P>,
))
    ensures
        Handle::spawned(future, r.0, r.1),
        call_ensures(Handle::spawn::<F, P>, (&Handle, future), r),
{
    Handle::current().spawn(future)
}

/// Spawns a task providing a name for diagnostic purposes.
///
/// Task names are unsupported on the web and the name is dropped.
pub fn spawn_named<N: Into<String>, F: Future, P>(name: N, future: F) -> (r: (
    JoinHandle<F::Output, P>,
    SpawnedTask<F, F::Output, P>,
))
    ensures
        Handle::spawned(future, r.0, r.1),
        call_ensures(spawn::<F, P>, (future,), r),
{
    let _ = name;
    spawn(future)
}

/// Runs the provided function on a thread pool dedicated to blocking operations.
pub fn spawn_blocking<F: FnOnce() -> R, R, P>(f: F) -> (r: (
    JoinHandle<R, P>,
    BlockingTask<F, R, P>,
))
    ensures
        Handle::spawned_blocking(f, r.0, r.1),
        call_ensures(Handle::spawn_blocking::<F, R, P>, (&Handle, f), r),
{
    Handle::current().spawn_blocking(f)
}

/// Runs the provided function on a thread pool dedicated to blocking operations,
/// providing a name for diagnostic purposes.
///
/// Task names are unsupported on the web and the name is dropped.
pub fn spawn_blocking_named<N: Into<String>, F: FnOnce() -> R, R, P>(name: N, f: F) -> (r: (
    JoinHandle<R, P>,
    BlockingTask<F, R, P>,
))
    ensures
        Handle::spawned_blocking(f, r.0, r.1),
        call_ensures(spawn_blocking::<F, R, P>, (f,), r),
{
    let _ = name;
    spawn_blocking(f)
}

/// The [Send] bound required to [spawn] a task on this platform.
///
/// On the web tasks never leave the thread they were spawned on and thus nothing
/// is required.
pub trait MaybeSend {

}

impl<T: ?Sized> MaybeSend for T {

}

/// Whether blocking the current thread is allowed.
///
/// Blocking is only allowed inside a web worker; blocking the main thread of a
/// browser window freezes the user interface and is prohibited for some
/// operations by the browser itself.
///
/// `in_worker` tells whether the JavaScript global object is that of a web worker.
pub fn is_blocking_allowed(in_worker: bool) -> (r: bool)
    ensures
        r == in_worker,
{
    in_worker
}

/// Joining a task over its handle gives what the task has come to: its value if
/// its work was completed, the panic if it panicked, and a cancellation if it was
/// aborted.
///
/// `handle` and `task` were spawned together, `works` and `aborts` are what polling
/// the work and the abort channel of the task gives, `delivery` is the result as it
/// is sent over the channel of the task, and `joined` is what joining gives once
/// this result has arrived at the receiver of the handle, which is the other half of
/// that channel.
pub proof fn law_joining_gives_what_the_task_came_to<F, T, P>(
    future: F,
    handle: JoinHandle<T, P>,
    task: SpawnedTask<F, T, P>,
    works: Seq<Poll<Result<T, CaughtPanic<P>>>>,
    aborts: Seq<AbortPoll>,
    delivery: Delivery<Result<T, JoinError<P>>>,
    joined: Poll<Result<T, JoinError<P>>>,
)
    requires
        Handle::spawned(future, handle, task),
        settles(select::run(task.driver.open(), works, aborts), delivery.value),
        task.driver.channel() == Some(delivery.tx),
        joins(Poll::Ready(Ok(delivery.value)), joined),
    ensures
        handle.receiver() matches Some(result_rx) && crate::web::channel::halves(
            delivery.tx,
            result_rx,
        ),
        match select::run(true, works, aborts) {
            Selected::Completed(Ok(value)) => joined == Poll::Ready(Ok::<T, JoinError<P>>(value)),
            Selected::Completed(Err(panic)) => joined matches Poll::Ready(Err(err))
                && err.repr().panic_payload() == Some(panic.payload),
            Selected::Aborted => joined matches Poll::Ready(Err(err)) && err.repr() is Aborted,
            Selected::Pending => false,
        },
{
}

/// Joining a blocking function over its handle gives what the function has
/// returned, or the panic if it panicked.
///
/// `handle` and `task` were spawned together, `delivery` is the result as it is sent
/// over the channel of the function, and `joined` is what joining gives once this
/// result has arrived at the receiver of the handle, which is the other half of that
/// channel.
pub proof fn law_joining_gives_what_the_function_returned<F, T, P>(
    f: F,
    handle: JoinHandle<T, P>,
    task: BlockingTask<F, T, P>,
    outcome: Result<T, CaughtPanic<P>>,
    delivery: Delivery<Result<T, JoinError<P>>>,
    joined: Poll<Result<T, JoinError<P>>>,
)
    requires
        Handle::spawned_blocking(f, handle, task),
        settles(Selected::Completed(outcome), delivery.value),
        task.driver.channel() == delivery.tx,
        joins(Poll::Ready(Ok(delivery.value)), joined),
    ensures
        handle.receiver() matches Some(result_rx) && crate::web::channel::halves(
            delivery.tx,
            result_rx,
        ),
        match outcome {
            Ok(value) => joined == Poll::Ready(Ok::<T, JoinError<P>>(value)),
            Err(panic) => joined matches Poll::Ready(Err(err)) && err.repr().panic_payload()
                == Some(panic.payload),
        },
{
}

/// The name of a task does not matter: whatever the names are, [`spawn_named`]
/// gives what [`spawn`] gives, a task that runs the same future and comes to the
/// same under the same polls.
pub proof fn law_task_name_is_dropped<N: Into<String>, M: Into<String>, F: Future, P>(
    name: N,
    other_name: M,
    future: F,
    named: (JoinHandle<F::Output, P>, SpawnedTask<F, F::Output, P>),
    other: (JoinHandle<F::Output, P>, SpawnedTask<F, F::Output, P>),
)
    requires
        call_ensures(spawn_named::<N, F, P>, (name, future), named),
        call_ensures(spawn_named::<M, F, P>, (other_name, future), other),
    ensures
        call_ensures(spawn::<F, P>, (future,), named),
        call_ensures(spawn::<F, P>, (future,), other),
        Handle::spawned(future, named.0, named.1),
        Handle::spawned(future, other.0, other.1),
        named.1.work == other.1.work,
        forall|works: Seq<Poll<Result<F::Output, CaughtPanic<P>>>>, aborts: Seq<AbortPoll>|
            #[trigger] select::run(named.1.driver.open(), works, aborts) == select::run(
                other.1.driver.open(),
                works,
                aborts,
            ),
{
}

/// The name of a blocking function does not matter: whatever the names are,
/// [`spawn_blocking_named`] gives what [`spawn_blocking`] gives, a task that runs the
/// same function.
pub proof fn law_function_name_is_dropped<
    N: Into<String>,
    M: Into<String>,
    F: FnOnce() -> R,
    R,
    P,
>(
    name: N,
    other_name: M,
    f: F,
    named: (JoinHandle<R, P>, BlockingTask<F, R, P>),
    other: (JoinHandle<R, P>, BlockingTask<F, R, P>),
)
    requires
        call_ensures(spawn_blocking_named::<N, F, R, P>, (name, f), named),
        call_ensures(spawn_blocking_named::<M, F, R, P>, (other_name, f), other),
    ensures
        call_ensures(spawn_blocking::<F, R, P>, (f,), named),
        call_ensures(spawn_blocking::<F, R, P>, (f,), other),
        Handle::spawned_blocking(f, named.0, named.1),
        Handle::spawned_blocking(f, other.0, other.1),
        named.1.work == other.1.work,
{
}

/// The specification functions of a handle and of the drivers show their fields.
proof fn law_handles_show_their_channels<T, P>(
    handle: JoinHandle<T, P>,
    driver: TaskDriver<T, P>,
    blocking: BlockingDriver<T, P>,
    error: JoinError<P>,
)
    ensures
        handle.receiver() == handle.result_rx,
        handle.settled() == handle.settled,
        handle.abortable() <==> handle.abort_tx is Some,
        forall|rx: oneshot::Receiver<()>|
            handle.aborts(rx) <==> handle.abort_tx is Some
                && #[trigger] crate::web::channel::oneshot_feeds(handle.abort_tx->Some_0, rx),
        forall|sent: bool|
            handle.requested(sent) <==> handle.abort_tx is Some
                && #[trigger] crate::web::channel::signal_gave(handle.abort_tx->Some_0, sent),
        driver.channel() == driver.result_tx,
        driver.open() == driver.select.open(),
        blocking.channel() == blocking.result_tx,
        error.repr() == error.0,
{
    assert forall|rx: oneshot::Receiver<()>|
        handle.aborts(rx) <==> handle.abort_tx is Some
            && #[trigger] crate::web::channel::oneshot_feeds(handle.abort_tx->Some_0, rx) by {}
}

/// The texts of an I/O error are those that displaying and debugging it gave.
proof fn law_texts_of_io_errors(err: std::io::Error, text: String)
    ensures
        displayed(err, text) <==> call_ensures(io_error_display, (&err,), text),
        debugged(err, text) <==> call_ensures(io_error_debug, (&err,), text),
{
}

/// A spawned task, polled once, reports to its handle: the value of its work if that
/// is completed, the panic if its work panicked, and a cancellation if its work is
/// pending and it was requested to abort. Otherwise it goes on. What it reports is
/// sent into the channel whose receiver the handle waits at.
pub proof fn law_first_poll_of_a_spawned_task<F: Future, P>(
    future: F,
    spawned: (JoinHandle<F::Output, P>, SpawnedTask<F, F::Output, P>),
    driver: &mut TaskDriver<F::Output, P>,
    work: Poll<Result<F::Output, CaughtPanic<P>>>,
    abort: AbortPoll,
    polls_abort: bool,
    progress: Poll<Delivery<Result<F::Output, JoinError<P>>>>,
)
    requires
        call_ensures(Handle::spawn::<F, P>, (&Handle, future), spawned),
        *driver == spawned.1.driver,
        call_ensures(TaskDriver::<F::Output, P>::polls_abort, (&*driver, &work), polls_abort),
        call_ensures(TaskDriver::<F::Output, P>::advance, (driver, work, abort), progress),
    ensures
        spawned.1.work == future,
        polls_abort <==> work is Pending,
        progress is Pending <==> work is Pending && abort !is Requested,
        work matches Poll::Ready(Ok(value)) ==> progress->Ready_0.value == Ok::<
            F::Output,
            JoinError<P>,
        >(value),
        work matches Poll::Ready(Err(panic)) ==> {
            &&& progress->Ready_0.value matches Err(err)
            &&& err.repr() matches JoinErrorRepr::Panicked { msg, payload }
            &&& payload == panic.payload
            &&& match (panic.string, panic.literal) {
                (Some(string), _) => msg matches Some(msg) && msg@ == string@,
                (None, Some(literal)) => msg matches Some(msg) && msg@ == literal@,
                (None, None) => msg is None,
            }
        },
        work is Pending && abort is Requested ==> (progress->Ready_0.value matches Err(err)
            && err.repr() is Aborted),
        progress is Ready ==> (spawned.0.receiver() matches Some(result_rx) && call_ensures(
            oneshot::channel::<Result<F::Output, JoinError<P>>>,
            (),
            (progress->Ready_0.tx, result_rx),
        )),
{
}

/// A spawned task can be aborted over its handle once, which reaches that task and no
/// other one.
pub proof fn law_handle_aborts_its_task_once<F: Future, P>(
    future: F,
    spawned: (JoinHandle<F::Output, P>, SpawnedTask<F, F::Output, P>),
    handle: &mut JoinHandle<F::Output, P>,
    outcome: AbortOutcome,
    again: &mut JoinHandle<F::Output, P>,
    second: AbortOutcome,
)
    requires
        call_ensures(Handle::spawn::<F, P>, (&Handle, future), spawned),
        *handle == spawned.0,
        call_ensures(JoinHandle::<F::Output, P>::abort, (handle,), outcome),
        *again == *final(handle),
        call_ensures(JoinHandle::<F::Output, P>::abort, (again,), second),
    ensures
        spawned.0.aborts(spawned.1.abort_rx),
        forall|rx: oneshot::Receiver<()>| #[trigger] spawned.0.aborts(rx) ==> rx
            == spawned.1.abort_rx,
        outcome is Requested || outcome is TaskGone,
        outcome is Requested ==> spawned.0.requested(true),
        outcome is TaskGone ==> spawned.0.requested(false),
        second is NotAbortable,
        final(handle).receiver() == spawned.0.receiver(),
{
}

/// A spawned blocking function reports to its handle: the value that it returned, or
/// the panic. What it reports is sent into the channel whose receiver the handle waits
/// at. It cannot be aborted.
pub proof fn law_outcome_of_a_blocking_function<F: FnOnce() -> R, R, P>(
    f: F,
    spawned: (JoinHandle<R, P>, BlockingTask<F, R, P>),
    outcome: Result<R, CaughtPanic<P>>,
    delivery: Delivery<Result<R, JoinError<P>>>,
    handle: &mut JoinHandle<R, P>,
    aborted: AbortOutcome,
)
    requires
        call_ensures(Handle::spawn_blocking::<F, R, P>, (&Handle, f), spawned),
        call_ensures(BlockingDriver::<R, P>::finish, (spawned.1.driver, outcome), delivery),
        *handle == spawned.0,
        call_ensures(JoinHandle::<R, P>::abort, (handle,), aborted),
    ensures
        spawned.1.work == f,
        aborted is NotAbortable,
        outcome matches Ok(value) ==> delivery.value == Ok::<R, JoinError<P>>(value),
        outcome matches Err(panic) ==> {
            &&& delivery.value matches Err(err)
            &&& err.repr() matches JoinErrorRepr::Panicked { msg, payload }
            &&& payload == panic.payload
            &&& match (panic.string, panic.literal) {
                (Some(string), _) => msg matches Some(msg) && msg@ == string@,
                (None, Some(literal)) => msg matches Some(msg) && msg@ == literal@,
                (None, None) => msg is None,
            }
        },
        spawned.0.receiver() matches Some(result_rx) && call_ensures(
            oneshot::channel::<Result<R, JoinError<P>>>,
            (),
            (delivery.tx, result_rx),
        ),
{
}

/// Joining gives what has arrived from the task, a failure if nothing ever will, and
/// nothing yet otherwise. What was taken once is gone.
pub proof fn law_joining_gives_what_has_arrived<T, P>(
    handle: &mut JoinHandle<T, P>,
    received: Poll<Result<Result<T, JoinError<P>>, oneshot::error::RecvError>>,
    joined: Poll<Result<T, JoinError<P>>>,
)
    requires
        handle.receiver() is Some,
        handle.settled() is None,
        call_ensures(JoinHandle::<T, P>::poll, (handle, received), joined),
    ensures
        received matches Poll::Ready(Ok(result)) ==> joined == Poll::Ready(result),
        received matches Poll::Ready(Err(_)) ==> (joined matches Poll::Ready(Err(err))
            && err.repr() is Failed),
        received is Pending ==> joined is Pending && *final(handle) == *old(handle),
        received is Ready ==> final(handle).receiver() is None && final(handle).settled() is None,
{
}

/// A blocking function for which no worker could be started is joined with the error,
/// whatever is received; one for which a worker was started keeps its handle.
pub proof fn law_failed_start_is_joined<T, P>(
    handle: JoinHandle<T, P>,
    err: std::io::Error,
    failed: JoinHandle<T, P>,
    kept: JoinHandle<T, P>,
    joining: &mut JoinHandle<T, P>,
    received: Poll<Result<Result<T, JoinError<P>>, oneshot::error::RecvError>>,
    joined: Poll<Result<T, JoinError<P>>>,
)
    requires
        call_ensures(JoinHandle::<T, P>::started, (handle, Err(err)), failed),
        call_ensures(JoinHandle::<T, P>::started, (handle, Ok(())), kept),
        *joining == failed,
        call_ensures(JoinHandle::<T, P>::poll, (joining, received), joined),
    ensures
        joined matches Poll::Ready(Err(reported)) && reported.repr() == JoinErrorRepr::<P>::Spawn(err),
        kept == handle,
{
}

/// What a task has come to decides its result, in full.
pub proof fn law_result_of_a_task<T, P>(
    selected: Selected<Result<T, CaughtPanic<P>>>,
    result: Poll<Result<T, JoinError<P>>>,
)
    requires
        call_ensures(settle::<T, P>, (selected,), result),
    ensures
        selected is Pending <==> result is Pending,
        selected matches Selected::Completed(Ok(value)) ==> result == Poll::Ready(
            Ok::<T, JoinError<P>>(value),
        ),
        selected matches Selected::Completed(Err(panic)) ==> (result matches Poll::Ready(Err(err))
            && err.repr().panic_payload() == Some(panic.payload) && err.repr() is Panicked),
        selected is Aborted ==> (result matches Poll::Ready(Err(err)) && err.repr() is Aborted),
{
}

/// An error tells of exactly one cause, which is the one that it was created for.
pub proof fn law_error_tells_its_cause<P>(
    repr: JoinErrorRepr<P>,
    error: JoinError<P>,
    cancelled: bool,
    failed: bool,
    panicked: bool,
    spawn: bool,
    reason: &JoinErrorRepr<P>,
)
    requires
        call_ensures(JoinError::<P>::new, (repr,), error),
        call_ensures(JoinError::<P>::is_cancelled, (&error,), cancelled),
        call_ensures(JoinError::<P>::is_failed, (&error,), failed),
        call_ensures(JoinError::<P>::is_panic, (&error,), panicked),
        call_ensures(JoinError::<P>::is_spawn, (&error,), spawn),
        call_ensures(JoinError::<P>::reason, (&error,), reason),
    ensures
        *reason == repr,
        cancelled <==> repr is Aborted,
        failed <==> repr is Failed,
        panicked <==> repr is Panicked,
        spawn <==> repr is Spawn,
{
}

/// The object with which a task panicked comes out of the error for the panic, together
/// with no other error; any other error is handed back.
pub proof fn law_payload_round_trip<P>(
    panic: CaughtPanic<P>,
    repr: JoinErrorRepr<P>,
    error: JoinError<P>,
    payload: Result<P, JoinError<P>>,
    same_payload: P,
    other: JoinError<P>,
    other_payload: Result<P, JoinError<P>>,
)
    requires
        call_ensures(JoinErrorRepr::<P>::panicked, (panic,), repr),
        call_ensures(JoinError::<P>::new, (repr,), error),
        call_ensures(JoinError::<P>::try_into_panic, (error,), payload),
        call_ensures(JoinError::<P>::into_panic, (error,), same_payload),
        call_ensures(JoinError::<P>::try_into_panic, (other,), other_payload),
        other.repr() !is Panicked,
    ensures
        payload == Ok::<P, JoinError<P>>(panic.payload),
        same_payload == panic.payload,
        other_payload == Err::<P, JoinError<P>>(other),
{
}

/// The texts of errors, in full. A panic message is shown if there is one, and the error
/// with which a worker could not be started always.
pub proof fn law_texts_of_errors<P>(
    error: JoinError<P>,
    shown: String,
    debug: String,
    spawn_error: &str,
    message: &str,
    shown_with: String,
    debug_with: String,
)
    requires
        call_ensures(JoinError::<P>::to_string, (&error,), shown),
        call_ensures(JoinError::<P>::to_debug, (&error,), debug),
        call_ensures(JoinError::<P>::display_with, (&error, spawn_error), shown_with),
        call_ensures(JoinError::<P>::debug_with, (&error, message, spawn_error), debug_with),
    ensures
        match error.repr() {
            JoinErrorRepr::Aborted => shown@ == "task was cancelled"@ && debug@ == "Aborted"@,
            JoinErrorRepr::Failed => shown@ == "task failed"@ && debug@ == "Failed"@,
            JoinErrorRepr::Panicked { msg: Some(msg), .. } => shown@
                == "task panicked with message "@ + msg@ && debug@ == "Panicked("@ + quoted(msg@)
                + ")"@,
            JoinErrorRepr::Panicked { msg: None, .. } => shown@ == "task panicked"@ && debug@
                == "Panicked("@ + quoted("..."@) + ")"@,
            JoinErrorRepr::Spawn(err) => {
                &&& exists|text: String| #[trigger]
                    displayed(err, text) && shown@ == "spawning worker failed: "@ + text@
                &&& exists|text: String| #[trigger]
                    debugged(err, text) && debug@ == "Spawn("@ + text@ + ")"@
            },
        },
        error.repr() is Spawn ==> shown_with@ == "spawning worker failed: "@ + spawn_error@
            && debug_with@ == "Spawn("@ + spawn_error@ + ")"@,
        error.repr() is Panicked ==> debug_with@ == "Panicked("@ + message@ + ")"@,
        error.repr() !is Spawn ==> shown_with@ == shown@,
        error.repr() is Aborted || error.repr() is Failed ==> debug_with@ == debug@,
{
}

/// The free functions spawn what the handle to the runtime spawns.
pub proof fn law_free_functions_use_the_runtime<F: Future, G: FnOnce() -> R, R, P>(
    future: F,
    f: G,
    spawned: (JoinHandle<F::Output, P>, SpawnedTask<F, F::Output, P>),
    spawned_blocking: (JoinHandle<R, P>, BlockingTask<G, R, P>),
)
    requires
        call_ensures(spawn::<F, P>, (future,), spawned),
        call_ensures(spawn_blocking::<G, R, P>, (f,), spawned_blocking),
    ensures
        call_ensures(Handle::spawn::<F, P>, (&Handle, future), spawned),
        call_ensures(Handle::spawn_blocking::<G, R, P>, (&Handle, f), spawned_blocking),
{
}

/// A poll of a spawned task that has not ended, in full. `open` is whether its abort
/// channel has to be polled while its work is pending, before and after. The channel
/// over which it reports stays the same until it reports.
pub proof fn law_poll_of_a_spawned_task<T, P>(
    driver: &mut TaskDriver<T, P>,
    open: bool,
    work: Poll<Result<T, CaughtPanic<P>>>,
    abort: AbortPoll,
    progress: Poll<Delivery<Result<T, JoinError<P>>>>,
    open_after: bool,
    pending: Poll<Result<T, CaughtPanic<P>>>,
)
    requires
        pending is Pending,
        driver.channel() is Some,
        call_ensures(TaskDriver::<T, P>::polls_abort, (&*driver, &pending), open),
        call_ensures(TaskDriver::<T, P>::advance, (driver, work, abort), progress),
        call_ensures(TaskDriver::<T, P>::polls_abort, (&*final(driver), &pending), open_after),
    ensures
        progress is Pending <==> work is Pending && !(open && abort is Requested),
        progress is Pending ==> final(driver).channel() == old(driver).channel(),
        progress matches Poll::Ready(delivery) ==> Some(delivery.tx) == old(driver).channel()
            && final(driver).channel() is None,
        work matches Poll::Ready(Ok(value)) ==> progress->Ready_0.value == Ok::<T, JoinError<P>>(
            value,
        ),
        work matches Poll::Ready(Err(panic)) ==> (progress->Ready_0.value matches Err(err)
            && err.repr() is Panicked && err.repr().panic_payload() == Some(panic.payload)),
        work is Pending && open && abort is Requested ==> (progress->Ready_0.value matches Err(err)
            && err.repr() is Aborted),
        open_after <==> open && !(work is Pending && abort is Closed),
{
}

} // verus!

//! Backend-independent extensions to the Tokio API.
use crate::duration::Duration;
use crate::poll::Poll;
use crate::web::runtime::Handle;
use crate::web::task::join_set::{AbortHandle, JoinSet, JoinSetTask, TaskHandle};
use crate::web::task::{BlockingTask, JoinHandle, MaybeSend, SpawnedTask};
use crate::web::time::instant::Instant;
use crate::web::time::{interval, Interval, MissedTickBehavior};
use std::future::Future;
use vstd::prelude::*;

verus! {

/// Tests whether threads are available and working on this platform by
/// spawning a test thread.
///
/// The result does not change once it is known.
#[derive(Clone, Copy, Debug, PartialEq, Eq, Structural)]
pub enum ThreadProbe {
    /// The test thread has not been spawned yet.
    Unknown,
    /// The test thread was spawned and has not sent its signal yet.
    Waiting,
    /// Whether threads are available is known.
    Known(bool),
}

/// What happened to the test thread.
#[derive(Clone, Copy, Debug, PartialEq, Eq, Structural)]
pub enum ProbeEvent {
    /// Whether the test thread could be spawned.
    Spawned(bool),
    /// Whether the signal of the test thread was received.
    Signalled(bool),
}

/// What has to be done to find out whether threads are available.
#[derive(Clone, Copy, Debug, PartialEq, Eq, Structural)]
pub enum ProbeAction {
    /// Spawn a test thread that sends a signal.
    Spawn,
    /// Wait for the signal of the test thread.
    Wait,
    /// Nothing. It is known whether threads are available.
    Done(bool),
}

impl ThreadProbe {
    /// The state after something has happened to the test thread.
    pub open spec fn after(self, event: ProbeEvent) -> ThreadProbe {
        match (self, event) {
            (ThreadProbe::Unknown, ProbeEvent::Spawned(true)) => ThreadProbe::Waiting,
            (ThreadProbe::Unknown, ProbeEvent::Spawned(false)) => ThreadProbe::Known(false),
            (ThreadProbe::Waiting, ProbeEvent::Signalled(received)) => ThreadProbe::Known(received),
            _ => self,
        }
    }

    /// The state after a series of events.
    pub open spec fn after_all(self, events: Seq<ProbeEvent>) -> ThreadProbe
        decreases events.len(),
    {
        if events.len() == 0 {
            self
        } else {
            self.after(events.first()).after_all(events.drop_first())
        }
    }

    /// Nothing is known about threads yet.
    pub fn new() -> (r: Self)
        ensures
            r == ThreadProbe::Unknown,
    {
        ThreadProbe::Unknown
    }

    /// What has to be done next.
    pub fn action(&self) -> (r: ProbeAction)
        ensures
            r == match *self {
                ThreadProbe::Unknown => ProbeAction::Spawn,
                ThreadProbe::Waiting => ProbeAction::Wait,
                ThreadProbe::Known(available) => ProbeAction::Done(available),
            },
    {
        match self {
            ThreadProbe::Unknown => ProbeAction::Spawn,
            ThreadProbe::Waiting => ProbeAction::Wait,
            ThreadProbe::Known(available) => ProbeAction::Done(*available),
        }
    }

    /// Takes note of what happened to the test thread.
    ///
    /// An event that is not waited for changes nothing.
    pub fn handle(&mut self, event: ProbeEvent)
        ensures
            *final(self) == old(self).after(event),
    {
        match *self {
            ThreadProbe::Unknown => if let ProbeEvent::Spawned(started) = event {
                *self = if started {
                    ThreadProbe::Waiting
                } else {
                    ThreadProbe::Known(false)
                };
            },
            ThreadProbe::Waiting => if let ProbeEvent::Signalled(received) = event {
                *self = ThreadProbe::Known(received);
            },
            ThreadProbe::Known(_) => {},
        }
    }
}

/// Threads are available if and only if the test thread could be spawned and its
/// signal was received.
pub proof fn law_threads_are_available_if_the_test_thread_signals(started: bool, received: bool)
    ensures
        ThreadProbe::Unknown.after(ProbeEvent::Spawned(started)).after(
            ProbeEvent::Signalled(received),
        ) == ThreadProbe::Known(started && received),
{
}

/// Once it is known whether threads are available, the answer never changes.
pub proof fn law_probe_result_is_cached(available: bool, events: Seq<ProbeEvent>)
    ensures
        ThreadProbe::Known(available).after_all(events) == ThreadProbe::Known(available),
    decreases events.len(),
{
    if events.len() > 0 {
        law_probe_result_is_cached(available, events.drop_first());
    }
}

/// Runtime handle extensions.
pub trait HandleExt {
    /// Spawns a task providing a name for diagnostic purposes.
    fn spawn_named<N: Into<String>, F: Future, P>(&self, name: N, future: F) -> (r: (
        JoinHandle<F::Output, P>,
        SpawnedTask<F, F::Output, P>,
    ))
        ensures
            Handle::spawned(future, r.0, r.1),
    ;

    /// Runs the provided function on a thread pool dedicated to blocking operations,
    /// providing a name for diagnostic purposes.
    fn spawn_blocking_named<N: Into<String>, F: FnOnce() -> R, R, P>(&self, name: N, f: F) -> (r: (
        JoinHandle<R, P>,
        BlockingTask<F, R, P>,
    ))
        ensures
            Handle::spawned_blocking(f, r.0, r.1),
    ;
}

/// Task names are unsupported on the web and the names are dropped.
impl HandleExt for Handle {
    /// Gives what [`Handle::spawn`] gives.
    fn spawn_named<N: Into<String>, F: Future, P>(&self, name: N, future: F) -> (r: (
        JoinHandle<F::Output, P>,
        SpawnedTask<F, F::Output, P>,
    ))
        ensures
            call_ensures(Handle::spawn::<F, P>, (self, future), r),
    {
        let _ = name;
        self.spawn(future)
    }

    /// Gives what [`Handle::spawn_blocking`] gives.
    fn spawn_blocking_named<N: Into<String>, F: FnOnce() -> R, R, P>(&self, name: N, f: F) -> (r: (
        JoinHandle<R, P>,
        BlockingTask<F, R, P>,
    ))
        ensures
            call_ensures(Handle::spawn_blocking::<F, R, P>, (self, f), r),
    {
        let _ = name;
        self.spawn_blocking(f)
    }
}

/// [`JoinSet`] extensions.
pub trait JoinSetExt<T> {
    /// The tasks of the set, in the order in which they were spawned.
    spec fn tasks(&self) -> Seq<TaskHandle<T>>;

    /// Spawns a task on the JoinSet providing a name for diagnostic purposes.
    fn spawn_named<N: Into<String>, F: Future<Output = T>>(&mut self, name: N, future: F) -> (r: (
        AbortHandle,
        JoinSetTask<F, T>,
    ))
        ensures
            r.1.spawned(future),
            r.0.aborts_only(r.1.abort_rx),
            r.0.room() == 1,
            JoinSetTask::joined(old(self).tasks(), final(self).tasks(), r.1),
    ;

    /// Spawns a blocking function on the JoinSet providing a name for diagnostic purposes.
    fn spawn_blocking_named<N: Into<String>, F: FnOnce() -> T, P>(&mut self, name: N, f: F) -> (r: (
        AbortHandle,
        JoinSetTask<JoinHandle<T, P>, T>,
        BlockingTask<F, T, P>,
    ))
        ensures
            Handle::spawned_blocking(f, r.1.work, r.2),
            r.1.spawned(r.1.work),
            r.0.aborts_only(r.1.abort_rx),
            r.0.room() == 1,
            JoinSetTask::joined(old(self).tasks(), final(self).tasks(), r.1),
    ;
}

/// Task names are unsupported on the web and the names are dropped.
impl<T> JoinSetExt<T> for JoinSet<T> {
    open spec fn tasks(&self) -> Seq<TaskHandle<T>> {
        self@
    }

    fn spawn_named<N: Into<String>, F: Future<Output = T>>(&mut self, name: N, future: F) -> (r: (
        AbortHandle,
        JoinSetTask<F, T>,
    )) {
        let _ = name;
        self.spawn(future)
    }

    fn spawn_blocking_named<N: Into<String>, F: FnOnce() -> T, P>(&mut self, name: N, f: F) -> (r: (
        AbortHandle,
        JoinSetTask<JoinHandle<T, P>, T>,
        BlockingTask<F, T, P>,
    )) {
        let _ = name;
        self.spawn_blocking(f)
    }
}

/// A future that can be run as a task on the web.
///
/// This is automatically implemented.
pub trait MaybeSendFuture: Future + MaybeSend {

}

impl<T: Future + MaybeSend + ?Sized> MaybeSendFuture for T {

}

/// A stream that produces an event at a fixed time interval.
///
/// This is not part of Tokio itself, but mirrors the wrapper provided by
/// [tokio-stream](https://docs.rs/tokio-stream).
#[derive(Debug)]
pub struct IntervalStream {
    inner: Interval,
}

impl IntervalStream {
    /// The interval that produces the events.
    pub closed spec fn source(self) -> Interval {
        self.inner
    }

    /// The stream that the interval produces.
    pub closed spec fn of(interval: Interval) -> Self {
        IntervalStream { inner: interval }
    }

    /// Creates a stream from an interval.
    pub fn new(interval: Interval) -> (r: Self)
        ensures
            r == Self::of(interval),
            r.source() == interval,
    {
        IntervalStream { inner: interval }
    }

    /// Consumes the stream, returning the underlying interval.
    pub fn into_inner(self) -> (r: Interval)
        ensures
            r == self.source(),
    {
        self.inner
    }

    /// The underlying interval.
    pub fn as_ref(&self) -> (r: &Interval)
        ensures
            *r == self.source(),
    {
        &self.inner
    }

    /// The underlying interval.
    pub fn as_mut(&mut self) -> (r: &mut Interval)
        ensures
            *r == old(self).source(),
            final(self).source() == *final(r),
    {
        &mut self.inner
    }

    /// Polls for the next event, given what polling the sleep towards the next tick
    /// of the interval gave.
    ///
    /// The stream never ends. An event is the instant that the tick was scheduled
    /// for; see [`Interval::poll_tick`].
    pub fn poll_next(&mut self, sleep: Poll<()>, now: Instant, clock: Instant) -> (r: Poll<
        Option<Instant>,
    >)
        requires
            old(self).source().wf(),
        ensures
            sleep is Pending ==> r is Pending && *final(self) == *old(self),
            sleep is Ready ==> r == Poll::Ready(Some(old(self).source().deadline()))
                && final(self).source().rescheduled(
                old(self).source(),
                old(self).source().behavior().deadline_after_tick(
                    old(self).source().deadline()@,
                    now@,
                    old(self).source().spacing()@,
                    clock@,
                ),
                clock,
            ),
    {
        match self.inner.poll_tick(sleep, now, clock) {
            Poll::Ready(tick) => Poll::Ready(Some(tick)),
            Poll::Pending => Poll::Pending,
        }
    }
}

impl From<Interval> for IntervalStream {
    fn from(interval: Interval) -> (r: Self) {
        Self::new(interval)
    }
}

impl vstd::std_specs::convert::FromSpecImpl<Interval> for IntervalStream {
    open spec fn obeys_from_spec() -> bool {
        true
    }

    open spec fn from_spec(interval: Interval) -> Self {
        IntervalStream::of(interval)
    }
}

/// Creates a stream that produces an event at the specified time interval.
///
/// The first event is produced immediately.
pub fn interval_stream(period: Duration, now: Instant, clock: Instant) -> (r: IntervalStream)
    requires
        period@ > 0,
    ensures
        r.source().wf(),
        r.source().deadline() == now,
        r.source().spacing() == period,
        r.source().behavior() == MissedTickBehavior::Burst,
        r.source().delay() == now.since(clock),
        now@ <= clock@ ==> r.source().delay()@ == 0,
        clock@ <= now@ ==> clock@ * 1_000 + r.source().delay()@ == now@ * 1_000,
{
    IntervalStream::new(interval(period, now, clock))
}

/// Turning an interval into a stream and back leaves it as it was.
pub proof fn law_stream_keeps_its_interval(interval: Interval)
    ensures
        IntervalStream::of(interval).source() == interval,
{
}

/// Whether threads are available is found out by spawning a test thread and waiting for
/// its signal, in this order: nothing is known before, and nothing but that decides.
pub proof fn law_probe_in_full(
    fresh: ThreadProbe,
    first: ProbeAction,
    spawning: &mut ThreadProbe,
    started: bool,
    second: ProbeAction,
    waiting: &mut ThreadProbe,
    received: bool,
    third: ProbeAction,
    unasked: &mut ThreadProbe,
    unasked_action: ProbeAction,
)
    requires
        call_ensures(ThreadProbe::new, (), fresh),
        call_ensures(ThreadProbe::action, (&fresh,), first),
        *spawning == fresh,
        call_ensures(ThreadProbe::handle, (spawning, ProbeEvent::Spawned(started)), ()),
        call_ensures(ThreadProbe::action, (&*final(spawning),), second),
        *waiting == *final(spawning),
        call_ensures(ThreadProbe::handle, (waiting, ProbeEvent::Signalled(received)), ()),
        call_ensures(ThreadProbe::action, (&*final(waiting),), third),
        *unasked == fresh,
        call_ensures(ThreadProbe::handle, (unasked, ProbeEvent::Signalled(received)), ()),
        call_ensures(ThreadProbe::action, (&*final(unasked),), unasked_action),
    ensures
        first is Spawn,
        unasked_action is Spawn,
        started ==> second is Wait,
        !started ==> second == ProbeAction::Done(false),
        third == ProbeAction::Done(started && received),
{
}

/// A probe that is done stays done with the same answer, whatever happens.
pub proof fn law_finished_probe_stays_finished(
    probe: &mut ThreadProbe,
    event: ProbeEvent,
    available: bool,
    action: ProbeAction,
)
    requires
        call_ensures(ThreadProbe::action, (&*probe,), ProbeAction::Done(available)),
        call_ensures(ThreadProbe::handle, (probe, event), ()),
        call_ensures(ThreadProbe::action, (&*final(probe),), action),
    ensures
        action == ProbeAction::Done(available),
{
}

/// A stream produces an event exactly when its interval ticks, which is the instant
/// that the tick was scheduled for, and never ends.
pub proof fn law_stream_produces_the_ticks(
    interval: &mut Interval,
    created: IntervalStream,
    stream: &mut IntervalStream,
    sleep: Poll<()>,
    now: Instant,
    clock: Instant,
    tick: Poll<Instant>,
    event: Poll<Option<Instant>>,
    inner: Interval,
    slept: Duration,
    inner_slept: Duration,
)
    requires
        interval.wf(),
        call_ensures(IntervalStream::new, (*interval,), created),
        *stream == created,
        call_ensures(Interval::poll_tick, (interval, sleep, now, clock), tick),
        call_ensures(IntervalStream::poll_next, (stream, sleep, now, clock), event),
        call_ensures(IntervalStream::into_inner, (*final(stream),), inner),
        call_ensures(Interval::sleep_duration, (&*final(interval),), slept),
        call_ensures(Interval::sleep_duration, (&inner,), inner_slept),
    ensures
        tick is Pending ==> event is Pending,
        tick matches Poll::Ready(instant) ==> event == Poll::Ready(Some(instant)),
        inner_slept@ == slept@,
        inner.deadline()@ == final(interval).deadline()@,
        inner.spacing() == final(interval).spacing(),
        inner.behavior() == final(interval).behavior(),
{
    if sleep is Ready {
        crate::web::time::instant::law_instant_is_its_micros(inner.deadline());
        crate::web::time::instant::law_instant_is_its_micros(final(interval).deadline());
    }
}

/// A stream holds the interval that it was created from, by every way to create it
/// and to get at it.
pub proof fn law_stream_and_interval_round_trip(
    interval: Interval,
    created: IntervalStream,
    converted: IntervalStream,
    inner: Interval,
    converted_inner: Interval,
    seen: &Interval,
)
    requires
        call_ensures(IntervalStream::new, (interval,), created),
        call_ensures(<IntervalStream as From<Interval>>::from, (interval,), converted),
        call_ensures(IntervalStream::into_inner, (created,), inner),
        call_ensures(IntervalStream::into_inner, (converted,), converted_inner),
        call_ensures(IntervalStream::as_ref, (&created,), seen),
    ensures
        inner == interval,
        converted_inner == interval,
        *seen == interval,
{
}

/// A new stream is that of a new interval: its first event is the current time, and
/// there is no sleep before it but for what the clock is behind that time.
pub proof fn law_new_stream(
    period: Duration,
    now: Instant,
    clock: Instant,
    stream: IntervalStream,
    inner: Interval,
    kept: Duration,
    slept: Duration,
)
    requires
        period@ > 0,
        call_ensures(interval_stream, (period, now, clock), stream),
        call_ensures(IntervalStream::into_inner, (stream,), inner),
        call_ensures(Interval::period, (&inner,), kept),
        call_ensures(Interval::sleep_duration, (&inner,), slept),
    ensures
        crate::web::time::ticks_next_at(inner, now),
        kept == period,
        now@ <= clock@ ==> slept@ == 0,
        clock@ <= now@ ==> slept@ == (now@ - clock@) * 1_000,
{
}

} // verus!

//! Time.
//!
//! Nothing here reads the clock. A function that needs to know what time it is
//! takes a reading as an argument, and one that goes by two consecutive readings
//! takes both: `now`, and `clock`, which was read after it.
use crate::duration::Duration;
use crate::poll::Poll;
use error::Elapsed;
use instant::Instant;
use js::JsSleep;
use vstd::prelude::*;

pub mod error;
pub mod instant;
pub mod js;
pub mod threads;

verus! {

/// Waits until `duration` has elapsed.
///
/// `setTimeout` accepts a delay of at most roughly 24.8 days, so longer sleeps
/// are performed by re-arming the timer repeatedly. Any duration is accepted and
/// [`Duration::max`] effectively sleeps forever.
///
/// Timers have millisecond resolution, so the duration is rounded up to whole
/// milliseconds and the sleep never completes early.
///
/// Returns the sleep and the delay in milliseconds for which its timer has to be
/// armed first.
pub fn sleep<W>(duration: Duration) -> (r: (JsSleep<W>, i32))
    ensures
        r.0.wf(),
        r.0.remaining_nanos() == duration@ - js::chunk(duration@),
        !r.0.fired(),
        r.0.waker() is None,
        r.0.timer() is None,
        r.1 == js::whole_millis(js::chunk(duration@)),
        js::timeouts(duration@) == seq![r.1 as nat] + r.0.due(),
        duration@ <= r.1 * 1_000_000 + r.0.remaining_nanos() < duration@ + 1_000_000,
        r.0.remaining_nanos() > 0 ==> r.1 == i32::MAX,
{
    JsSleep::new(duration)
}

/// How long to sleep so as to wait until `deadline` is reached, when the clock
/// shows `clock`.
pub fn sleep_until(deadline: Instant, clock: Instant) -> (r: Duration)
    ensures
        r == deadline.since(clock),
        r@ == instant::less(deadline@, clock@) * 1_000,
        clock@ <= deadline@ ==> clock@ * 1_000 + r@ == deadline@ * 1_000,
        clock@ >= deadline@ ==> r@ == 0,
{
    let delay = deadline.duration_since(clock);
    proof {
        crate::duration::law_duration_is_its_nanos(delay);
    }
    delay
}

/// A sleep until a deadline does not end before the deadline, and it lasts no
/// longer than that: a deadline that has passed already is not waited for.
pub proof fn law_sleep_until_ends_at_the_deadline(deadline: Instant, clock: Instant)
    ensures
        clock@ <= deadline@ ==> clock.later(deadline.since(clock)) == deadline,
        clock@ >= deadline@ ==> deadline.since(clock)@ == 0,
        clock@ + js::total(js::timeouts(deadline.since(clock)@)) * 1_000 >= deadline@,
{
    instant::law_elapsed_leads_to_the_later(clock, deadline);
    instant::law_instant_is_its_micros(deadline);
    instant::law_instant_is_its_micros(clock);
    crate::duration::law_every_span_has_a_duration(instant::less(deadline@, clock@) * 1_000);
    js::law_sleep_takes_the_duration_rounded_up(deadline.since(clock)@);
}

/// Future returned by [`timeout`] and [`timeout_at`].
pub struct Timeout<F> {
    sleep: Duration,
    future: F,
}

impl<F> Timeout<F> {
    /// How long the future may take.
    pub closed spec fn limit(self) -> Duration {
        self.sleep
    }

    /// The future that is limited.
    pub closed spec fn inner(self) -> F {
        self.future
    }

    /// The time that the future may take and the future itself.
    pub fn into_parts(self) -> (r: (Duration, F))
        ensures
            r.0 == self.limit(),
            r.1 == self.inner(),
    {
        (self.sleep, self.future)
    }

    /// Combines what polling the future and polling the sleep gave.
    ///
    /// The future is polled first, and the sleep only if the future is pending.
    pub fn poll<T>(future: Poll<T>, sleep: Poll<()>) -> (r: Poll<Result<T, Elapsed>>)
        ensures
            r == match (future, sleep) {
                (Poll::Ready(output), _) => Poll::Ready(Ok(output)),
                (Poll::Pending, Poll::Ready(_)) => Poll::Ready(Err(Elapsed {  })),
                (Poll::Pending, Poll::Pending) => Poll::Pending,
            },
    {
        if let Poll::Ready(output) = future {
            return Poll::Ready(Ok(output));
        }
        if let Poll::Ready(()) = sleep {
            return Poll::Ready(Err(Elapsed {  }));
        }
        Poll::Pending
    }
}

/// Requires a future to complete before the specified duration has elapsed.
pub fn timeout<F>(duration: Duration, future: F) -> (r: Timeout<F>)
    ensures
        r.limit() == duration,
        r.inner() == future,
{
    Timeout { sleep: duration, future }
}

/// Requires a future to complete before the specified instant in time, when the
/// clock shows `clock`.
pub fn timeout_at<F>(deadline: Instant, future: F, clock: Instant) -> (r: Timeout<F>)
    ensures
        r.limit() == deadline.since(clock),
        r.inner() == future,
        clock@ <= deadline@ ==> clock@ * 1_000 + r.limit()@ == deadline@ * 1_000,
        clock@ >= deadline@ ==> r.limit()@ == 0,
{
    Timeout { sleep: sleep_until(deadline, clock), future }
}

/// How an interval makes up for ticks that were missed.
#[derive(Clone, Copy, Debug, PartialEq, Eq, Structural)]
pub enum MissedTickBehavior {
    /// Ticks as fast as possible until caught up.
    Burst,
    /// Ticks one period after the late tick.
    Delay,
    /// Skips missed ticks and ticks on the next multiple of the period.
    Skip,
}

impl Default for MissedTickBehavior {
    fn default() -> (r: Self)
        ensures
            r == MissedTickBehavior::Burst,
    {
        MissedTickBehavior::Burst
    }
}

/// The instant, in microseconds, that lies so far ahead of `clock` that it is
/// never reached, i.e. roughly 30 years.
pub open spec fn never(clock: nat) -> nat {
    instant::capped(clock + 946_080_000_000_000)
}

/// The instant, in microseconds, that lies `duration` nanoseconds after
/// `instant`, or one that is never reached if it is not representable.
pub open spec fn deadline_after(instant: nat, duration: nat, clock: nat) -> nat {
    if instant + duration / 1_000 <= u64::MAX {
        instant + duration / 1_000
    } else {
        never(clock)
    }
}

/// The number of nanoseconds by which `now` lies past the last of the instants
/// that follow `timeout` at multiples of the period; not counted if it does not
/// fit into 64 bits.
pub open spec fn behind(timeout: nat, now: nat, period: nat) -> nat {
    let nanos = (instant::less(now, timeout) * 1_000) % period;
    if nanos <= u64::MAX {
        nanos
    } else {
        0
    }
}

impl MissedTickBehavior {
    /// The deadline, in microseconds, that follows a tick that was due at
    /// `timeout` and was missed, when the clock shows `now`.
    pub open spec fn deadline_after_miss(
        self,
        timeout: nat,
        now: nat,
        period: nat,
        clock: nat,
    ) -> nat {
        match self {
            MissedTickBehavior::Burst => deadline_after(timeout, period, clock),
            MissedTickBehavior::Delay => deadline_after(now, period, clock),
            MissedTickBehavior::Skip => instant::less(
                deadline_after(now, period, clock),
                behind(timeout, now, period) / 1_000,
            ),
        }
    }

    /// The deadline, in microseconds, that follows a tick that was due at
    /// `timeout` and is delivered when the clock shows `now`.
    ///
    /// The tick counts as missed if it is more than five milliseconds late.
    pub open spec fn deadline_after_tick(
        self,
        timeout: nat,
        now: nat,
        period: nat,
        clock: nat,
    ) -> nat {
        if now > deadline_after(timeout, 5_000_000, clock) {
            self.deadline_after_miss(timeout, now, period, clock)
        } else {
            deadline_after(timeout, period, clock)
        }
    }
}

/// A deadline that is never reached when the clock shows `clock`.
pub fn far_future(clock: Instant) -> (r: Instant)
    ensures
        r@ == never(clock@),
{
    // Roughly 30 years.
    clock + Duration::from_secs(86400 * 365 * 30)
}

/// Adds a duration to an instant, falling back to [`far_future`] if the result
/// is not representable.
pub fn add_deadline(instant: Instant, duration: Duration, clock: Instant) -> (r: Instant)
    ensures
        r@ == deadline_after(instant@, duration@, clock@),
{
    match instant.checked_add(duration) {
        Some(deadline) => deadline,
        None => far_future(clock),
    }
}

/// Determines the next deadline according to the missed tick behavior.
pub fn next_deadline(
    behavior: MissedTickBehavior,
    timeout: Instant,
    now: Instant,
    period: Duration,
    clock: Instant,
) -> (r: Instant)
    requires
        behavior is Skip ==> period@ > 0,
    ensures
        r@ == behavior.deadline_after_miss(timeout@, now@, period@, clock@),
{
    match behavior {
        MissedTickBehavior::Burst => add_deadline(timeout, period, clock),
        MissedTickBehavior::Delay => add_deadline(now, period, clock),
        MissedTickBehavior::Skip => {
            let behind: u128 = (now - timeout).as_nanos() % period.as_nanos();
            let behind: u64 = if behind <= u64::MAX as u128 {
                behind as u64
            } else {
                0
            };
            add_deadline(now, period, clock) - Duration::from_nanos(behind)
        },
    }
}

/// Interval returned by [`interval`] and [`interval_at`].
///
/// This type allows you to wait on a sequence of instants with a certain
/// duration between each instant. Whoever owns it sleeps for
/// [`sleep_duration`](Interval::sleep_duration) whenever the interval was created,
/// has ticked or was reset, and reports the end of that sleep through
/// [`poll_tick`](Interval::poll_tick).
#[derive(Debug)]
pub struct Interval {
    deadline: Instant,
    period: Duration,
    missed_tick_behavior: MissedTickBehavior,
    sleep: Duration,
}

impl Interval {
    /// The instant that the next tick is scheduled for.
    pub closed spec fn deadline(self) -> Instant {
        self.deadline
    }

    /// The time between ticks.
    pub closed spec fn spacing(self) -> Duration {
        self.period
    }

    /// What happens to missed ticks.
    pub closed spec fn behavior(self) -> MissedTickBehavior {
        self.missed_tick_behavior
    }

    /// The time that the sleep towards the next tick takes.
    pub closed spec fn delay(self) -> Duration {
        self.sleep
    }

    /// The period is not zero.
    pub open spec fn wf(self) -> bool {
        self.spacing()@ > 0
    }

    /// This is `before` except that it now sleeps from `clock` until `deadline`.
    pub open spec fn rescheduled(self, before: Interval, deadline: nat, clock: Instant) -> bool {
        &&& self.wf()
        &&& self.deadline()@ == deadline
        &&& self.delay() == self.deadline().since(clock)
        &&& self.spacing() == before.spacing()
        &&& self.behavior() == before.behavior()
    }

    /// Polls for the next instant in the interval to be reached, given what
    /// polling the sleep towards it gave.
    ///
    /// Returns the instant the tick was scheduled for, which may lie in the past
    /// when a tick was missed.
    pub fn poll_tick(&mut self, sleep: Poll<()>, now: Instant, clock: Instant) -> (r: Poll<Instant>)
        requires
            old(self).wf(),
        ensures
            sleep is Pending ==> r is Pending && *final(self) == *old(self),
            sleep is Ready ==> r == Poll::Ready(old(self).deadline()) && final(self).rescheduled(
                *old(self),
                old(self).behavior().deadline_after_tick(
                    old(self).deadline()@,
                    now@,
                    old(self).spacing()@,
                    clock@,
                ),
                clock,
            ),
            sleep is Ready && clock@ <= final(self).deadline()@ ==> clock@ * 1_000
                + final(self).delay()@ == final(self).deadline()@ * 1_000,
            sleep is Ready && clock@ >= final(self).deadline()@ ==> final(self).delay()@ == 0,
            final(self).spacing() == old(self).spacing(),
            final(self).behavior() == old(self).behavior(),
    {
        if let Poll::Pending = sleep {
            return Poll::Pending;
        }
        let timeout = self.deadline;
        // Timers in a JavaScript runtime are throttled heavily in background
        // tabs, so ticks are missed regularly and the behavior configured for
        // that case matters.
        self.deadline = if now > add_deadline(timeout, Duration::from_millis(5), clock) {
            next_deadline(self.missed_tick_behavior, timeout, now, self.period, clock)
        } else {
            add_deadline(timeout, self.period, clock)
        };
        self.sleep = sleep_until(self.deadline, clock);
        Poll::Ready(timeout)
    }

    /// Resets the interval to complete one period after the current time.
    pub fn reset(&mut self, now: Instant, clock: Instant)
        requires
            old(self).wf(),
        ensures
            final(self).rescheduled(
                *old(self),
                deadline_after(now@, old(self).spacing()@, clock@),
                clock,
            ),
            clock@ <= final(self).deadline()@ ==> clock@ * 1_000 + final(self).delay()@
                == final(self).deadline()@ * 1_000,
            clock@ >= final(self).deadline()@ ==> final(self).delay()@ == 0,
            final(self).spacing() == old(self).spacing(),
            final(self).behavior() == old(self).behavior(),
    {
        self.reset_at(add_deadline(now, self.period, clock), clock);
    }

    /// Resets the interval immediately.
    pub fn reset_immediately(&mut self, now: Instant, clock: Instant)
        requires
            old(self).wf(),
        ensures
            final(self).rescheduled(*old(self), now@, clock),
            clock@ <= final(self).deadline()@ ==> clock@ * 1_000 + final(self).delay()@
                == final(self).deadline()@ * 1_000,
            clock@ >= final(self).deadline()@ ==> final(self).delay()@ == 0,
            final(self).spacing() == old(self).spacing(),
            final(self).behavior() == old(self).behavior(),
    {
        self.reset_at(now, clock);
    }

    /// Resets the interval after the specified duration.
    pub fn reset_after(&mut self, after: Duration, now: Instant, clock: Instant)
        requires
            old(self).wf(),
        ensures
            final(self).rescheduled(*old(self), deadline_after(now@, after@, clock@), clock),
            clock@ <= final(self).deadline()@ ==> clock@ * 1_000 + final(self).delay()@
                == final(self).deadline()@ * 1_000,
            clock@ >= final(self).deadline()@ ==> final(self).delay()@ == 0,
            final(self).spacing() == old(self).spacing(),
            final(self).behavior() == old(self).behavior(),
    {
        self.reset_at(add_deadline(now, after, clock), clock);
    }

    /// Resets the interval to a specified instant.
    pub fn reset_at(&mut self, deadline: Instant, clock: Instant)
        requires
            old(self).wf(),
        ensures
            final(self).rescheduled(*old(self), deadline@, clock),
            final(self).deadline() == deadline,
            clock@ <= final(self).deadline()@ ==> clock@ * 1_000 + final(self).delay()@
                == final(self).deadline()@ * 1_000,
            clock@ >= final(self).deadline()@ ==> final(self).delay()@ == 0,
            final(self).spacing() == old(self).spacing(),
            final(self).behavior() == old(self).behavior(),
    {
        self.deadline = deadline;
        self.sleep = sleep_until(deadline, clock);
    }

    /// Returns the behavior of missed ticks.
    pub fn missed_tick_behavior(&self) -> (r: MissedTickBehavior)
        ensures
            r == self.behavior(),
    {
        self.missed_tick_behavior
    }

    /// Sets the behavior of missed ticks.
    pub fn set_missed_tick_behavior(&mut self, behavior: MissedTickBehavior)
        ensures
            final(self).behavior() == behavior,
            final(self).deadline() == old(self).deadline(),
            final(self).spacing() == old(self).spacing(),
            final(self).delay() == old(self).delay(),
    {
        self.missed_tick_behavior = behavior;
    }

    /// Returns the period of the interval.
    pub fn period(&self) -> (r: Duration)
        ensures
            r == self.spacing(),
    {
        self.period
    }

    /// Returns the time that the sleep towards the next tick takes.
    pub fn sleep_duration(&self) -> (r: Duration)
        ensures
            r == self.delay(),
    {
        self.sleep
    }
}

/// Creates a new interval that yields with the specified period.
///
/// The first tick completes immediately.
pub fn interval(period: Duration, now: Instant, clock: Instant) -> (r: Interval)
    requires
        period@ > 0,
    ensures
        r.wf(),
        r.deadline() == now,
        r.spacing() == period,
        r.behavior() == MissedTickBehavior::Burst,
        r.delay() == now.since(clock),
        now@ <= clock@ ==> r.delay()@ == 0,
        clock@ <= now@ ==> clock@ * 1_000 + r.delay()@ == now@ * 1_000,
{
    let interval = interval_at(now, period, clock);
    proof {
        law_sleep_until_ends_at_the_deadline(now, clock);
    }
    interval
}

/// Creates a new interval that yields with the specified period, starting at
/// the specified instant.
pub fn interval_at(start: Instant, period: Duration, clock: Instant) -> (r: Interval)
    requires
        period@ > 0,
    ensures
        r.wf(),
        r.deadline() == start,
        r.spacing() == period,
        r.behavior() == MissedTickBehavior::Burst,
        r.delay() == start.since(clock),
        clock@ <= start@ ==> clock@ * 1_000 + r.delay()@ == start@ * 1_000,
        clock@ >= start@ ==> r.delay()@ == 0,
{
    Interval {
        deadline: start,
        period,
        missed_tick_behavior: MissedTickBehavior::default(),
        sleep: sleep_until(start, clock),
    }
}

/// The deadline of an interval that has ticked `count` times since it was due at
/// `start`, without having missed a tick or while catching up by bursting.
pub open spec fn scheduled(start: nat, period: nat, count: nat) -> nat {
    start + count * (period / 1_000)
}

/// An interval that is on time, and one that catches up by bursting, ticks at
/// the instants that follow its start at multiples of the period, whenever its
/// ticks are delivered.
pub proof fn law_ticks_keep_to_the_schedule(
    behavior: MissedTickBehavior,
    start: nat,
    count: nat,
    now: nat,
    period: nat,
    clock: nat,
)
    requires
        scheduled(start, period, count + 1) <= u64::MAX,
        behavior is Burst || now <= deadline_after(scheduled(start, period, count), 5_000_000, clock),
    ensures
        behavior.deadline_after_tick(scheduled(start, period, count), now, period, clock)
            == scheduled(start, period, count + 1),
{
    assert((count + 1) * (period / 1_000) == count * (period / 1_000) + period / 1_000)
        by (nonlinear_arith);
}

/// After a missed tick that is delayed, the next one follows a whole period
/// later, whatever the original schedule was.
pub proof fn law_delayed_tick_follows_a_period_later(timeout: nat, now: nat, period: nat, clock: nat)
    requires
        now > deadline_after(timeout, 5_000_000, clock),
        now + period / 1_000 <= u64::MAX,
    ensures
        MissedTickBehavior::Delay.deadline_after_tick(timeout, now, period, clock) == now + period
            / 1_000,
{
}

/// After missed ticks that are skipped, the next deadline lies neither in the
/// past nor more than a period ahead, so that missed ticks are not made up for.
pub proof fn law_skipping_never_bursts(timeout: nat, now: nat, period: nat, clock: nat)
    requires
        period > 0,
        now > deadline_after(timeout, 5_000_000, clock),
        now + period / 1_000 <= u64::MAX,
    ensures
        now <= MissedTickBehavior::Skip.deadline_after_tick(timeout, now, period, clock) <= now
            + period / 1_000,
{
    let elapsed = (instant::less(now, timeout) * 1_000) as int;
    assert(0 <= elapsed % (period as int) < period) by (nonlinear_arith)
        requires
            period > 0,
    ;
}

/// After missed ticks that are skipped, the next deadline is the first of the
/// instants following the original one at multiples of the period that lies in
/// the future, provided that the period is a whole number of microseconds and
/// that the time since the last multiple can be counted in 64 bits.
pub proof fn law_skipping_keeps_to_the_schedule(
    timeout: nat,
    now: nat,
    period: nat,
    clock: nat,
) -> (count: nat)
    requires
        period > 0,
        period % 1_000 == 0,
        now > deadline_after(timeout, 5_000_000, clock),
        now >= timeout,
        now + period / 1_000 <= u64::MAX,
        ((now - timeout) * 1_000) % (period as int) <= u64::MAX,
    ensures
        MissedTickBehavior::Skip.deadline_after_tick(timeout, now, period, clock) == scheduled(
            timeout,
            period,
            count,
        ),
        now < scheduled(timeout, period, count) <= now + period / 1_000,
{
    let p = (period / 1_000) as int;
    let d = now - timeout;
    assert(period == p * 1_000);
    vstd::arithmetic::div_mod::lemma_fundamental_div_mod(d, p);
    vstd::arithmetic::div_mod::lemma_mod_bound(d, p);
    vstd::arithmetic::mul::lemma_mul_is_commutative(p, d / p);
    vstd::arithmetic::div_mod::lemma_div_pos_is_pos(d, p);
    // The lag in nanoseconds is the lag in microseconds, times a thousand.
    assert((d * 1_000) % (p * 1_000) == (d % p) * 1_000) by {
        vstd::arithmetic::div_mod::lemma_truncate_middle(d, 1_000, p);
    }
    let count = (d / p + 1) as nat;
    assert(count * p == (d / p) * p + p) by (nonlinear_arith)
        requires
            count == d / p + 1,
    ;
    count
}

/// A sleep until a deadline, and a future that is limited by one, take the time that
/// is left until the deadline, and none if it has passed.
pub proof fn law_time_until_a_deadline<F>(
    deadline: Instant,
    clock: Instant,
    delay: Duration,
    future: F,
    limited: Timeout<F>,
    parts: (Duration, F),
)
    requires
        call_ensures(sleep_until, (deadline, clock), delay),
        call_ensures(timeout_at::<F>, (deadline, future, clock), limited),
        call_ensures(Timeout::<F>::into_parts, (limited,), parts),
    ensures
        clock@ <= deadline@ ==> delay@ == (deadline@ - clock@) * 1_000,
        clock@ >= deadline@ ==> delay@ == 0,
        parts.0@ == delay@,
        parts.1 == future,
{
}

/// A future that is limited to a duration may take exactly that duration.
pub proof fn law_time_limit_is_kept<F>(
    duration: Duration,
    future: F,
    limited: Timeout<F>,
    parts: (Duration, F),
)
    requires
        call_ensures(timeout::<F>, (duration, future), limited),
        call_ensures(Timeout::<F>::into_parts, (limited,), parts),
    ensures
        parts.0 == duration,
        parts.1 == future,
{
}

/// The sum of an instant and a duration is later by the whole microseconds of the
/// duration if it is representable, and otherwise what [`far_future`] gives, which is
/// thirty years ahead of the clock as far as that is representable.
pub proof fn law_deadline_is_the_sum(
    instant: Instant,
    duration: Duration,
    clock: Instant,
    deadline: Instant,
    far: Instant,
)
    requires
        call_ensures(add_deadline, (instant, duration, clock), deadline),
        call_ensures(far_future, (clock,), far),
    ensures
        instant@ * 1_000 + duration@ < (u64::MAX + 1) * 1_000 ==> (deadline@ - instant@) * 1_000
            <= duration@ < (deadline@ - instant@) * 1_000 + 1_000,
        instant@ * 1_000 + duration@ >= (u64::MAX + 1) * 1_000 ==> deadline@ == far@,
        far@ == u64::MAX || far@ == clock@ + 30 * 365 * 24 * 3_600 * 1_000_000,
        far@ <= clock@ + 30 * 365 * 24 * 3_600 * 1_000_000,
{
}

/// What follows a missed tick, in terms of the sums of instants and the period:
/// bursting goes on from the deadline that was missed, delaying from the current
/// time. Skipping is behind the latter by how far the current time lies past the
/// last multiple of the period, in whole microseconds, and does not wait longer than
/// delaying.
pub proof fn law_next_deadline_by_behavior(
    timeout: Instant,
    now: Instant,
    period: Duration,
    clock: Instant,
    from_timeout: Instant,
    from_now: Instant,
    burst: Instant,
    delay: Instant,
    skip: Instant,
    multiples: nat,
)
    requires
        period@ > 0,
        call_ensures(add_deadline, (timeout, period, clock), from_timeout),
        call_ensures(add_deadline, (now, period, clock), from_now),
        call_ensures(next_deadline, (MissedTickBehavior::Burst, timeout, now, period, clock), burst),
        call_ensures(next_deadline, (MissedTickBehavior::Delay, timeout, now, period, clock), delay),
        call_ensures(next_deadline, (MissedTickBehavior::Skip, timeout, now, period, clock), skip),
        timeout@ <= now@,
        multiples * period@ <= (now@ - timeout@) * 1_000 < (multiples + 1) * period@,
    ensures
        burst@ == from_timeout@,
        delay@ == from_now@,
        skip@ <= delay@,
        (now@ - timeout@) * 1_000 - multiples * period@ > u64::MAX ==> skip@ == from_now@,
        (now@ - timeout@) * 1_000 - multiples * period@ <= u64::MAX ==> {
            let behind = (now@ - timeout@) * 1_000 - multiples * period@;
            ||| skip@ == 0 && from_now@ * 1_000 < behind
            ||| (from_now@ - skip@) * 1_000 <= behind < (from_now@ - skip@) * 1_000 + 1_000
        },
{
    let lag = (now@ - timeout@) * 1_000;
    let behind = lag - multiples * period@;
    assert((multiples + 1) * period@ == multiples * period@ + period@) by (nonlinear_arith);
    vstd::arithmetic::div_mod::lemma_fundamental_div_mod_converse(
        lag,
        period@ as int,
        multiples as int,
        behind,
    );
    assert(lag % (period@ as int) == behind);
}

/// A tick is reported as the instant that it was scheduled for. One that is at most
/// five milliseconds late is followed by the sum of that instant and the period, a
/// later one by what the missed tick behavior says.
pub proof fn law_tick_is_followed_by_the_next_deadline(
    interval: &mut Interval,
    now: Instant,
    clock: Instant,
    tick: Poll<Instant>,
    period: Duration,
    behavior: MissedTickBehavior,
    tolerated: Instant,
    on_time: Instant,
    missed: Instant,
    following: &mut Interval,
    later: Instant,
    later_clock: Instant,
    next_tick: Poll<Instant>,
)
    requires
        interval.wf(),
        call_ensures(Interval::period, (&*interval,), period),
        call_ensures(Interval::missed_tick_behavior, (&*interval,), behavior),
        call_ensures(Interval::poll_tick, (interval, Poll::Ready(()), now, clock), tick),
        call_ensures(
            add_deadline,
            (tick->Ready_0, Duration::spanning(5 * 1_000_000), clock),
            tolerated,
        ),
        call_ensures(add_deadline, (tick->Ready_0, period, clock), on_time),
        call_ensures(next_deadline, (behavior, tick->Ready_0, now, period, clock), missed),
        *following == *final(interval),
        call_ensures(
            Interval::poll_tick,
            (following, Poll::Ready(()), later, later_clock),
            next_tick,
        ),
    ensures
        tick is Ready,
        next_tick is Ready,
        now@ <= tolerated@ ==> next_tick->Ready_0@ == on_time@,
        now@ > tolerated@ ==> next_tick->Ready_0@ == missed@,
{
    crate::duration::law_every_span_has_a_duration(5 * 1_000_000);
}

/// The sleep towards the next tick ends exactly when the tick is scheduled, and takes
/// no time if that has passed: after a tick, and after every way to reset the
/// interval.
pub proof fn law_interval_sleeps_until_its_deadline(
    interval: &mut Interval,
    clock: Instant,
    slept: Duration,
    following: &mut Interval,
    later: Instant,
    later_clock: Instant,
    tick: Poll<Instant>,
    now: Instant,
    deadline: Instant,
    after: Duration,
    last_tick: Poll<Instant>,
)
    requires
        interval.wf(),
        ({
            ||| call_ensures(Interval::poll_tick, (interval, Poll::Ready(()), now, clock), last_tick)
            ||| call_ensures(Interval::reset, (interval, now, clock), ())
            ||| call_ensures(Interval::reset_immediately, (interval, now, clock), ())
            ||| call_ensures(Interval::reset_after, (interval, after, now, clock), ())
            ||| call_ensures(Interval::reset_at, (interval, deadline, clock), ())
        }),
        call_ensures(Interval::sleep_duration, (&*final(interval),), slept),
        *following == *final(interval),
        call_ensures(
            Interval::poll_tick,
            (following, Poll::Ready(()), later, later_clock),
            tick,
        ),
    ensures
        tick is Ready,
        clock@ <= tick->Ready_0@ ==> slept@ == (tick->Ready_0@ - clock@) * 1_000,
        clock@ >= tick->Ready_0@ ==> slept@ == 0,
        clock@ <= tick->Ready_0@ ==> clock.later(slept) == tick->Ready_0,
{
    instant::law_instant_is_its_micros(tick->Ready_0);
}

/// Resetting an interval schedules its next tick for the specified instant, for the
/// current time, or for the sum of the current time and the specified duration or the
/// period.
pub proof fn law_reset_schedules_the_next_tick(
    at: &mut Interval,
    immediately: &mut Interval,
    after: &mut Interval,
    periodic: &mut Interval,
    deadline: Instant,
    duration: Duration,
    period: Duration,
    now: Instant,
    clock: Instant,
    in_duration: Instant,
    in_period: Instant,
)
    requires
        at.wf(),
        immediately.wf(),
        after.wf(),
        periodic.wf(),
        call_ensures(Interval::reset_at, (at, deadline, clock), ()),
        call_ensures(Interval::reset_immediately, (immediately, now, clock), ()),
        call_ensures(Interval::reset_after, (after, duration, now, clock), ()),
        call_ensures(Interval::period, (&*periodic,), period),
        call_ensures(Interval::reset, (periodic, now, clock), ()),
        call_ensures(add_deadline, (now, duration, clock), in_duration),
        call_ensures(add_deadline, (now, period, clock), in_period),
    ensures
        ticks_next_at(*final(at), deadline),
        ticks_next_at(*final(immediately), now),
        ticks_next_at(*final(after), in_duration),
        ticks_next_at(*final(periodic), in_period),
{
    instant::law_instant_is_its_micros(deadline);
    instant::law_instant_is_its_micros(now);
    instant::law_instant_is_its_micros(in_duration);
    instant::law_instant_is_its_micros(in_period);
}

/// Whether every tick that the interval reports next is this one.
pub open spec fn ticks_next_at(interval: Interval, deadline: Instant) -> bool {
    forall|following: &mut Interval, now: Instant, clock: Instant, tick: Poll<Instant>|
        *following == interval && #[trigger] call_ensures(
            Interval::poll_tick,
            (following, Poll::Ready(()), now, clock),
            tick,
        ) ==> tick == Poll::Ready(deadline)
}

/// A new interval ticks first at its start, sleeps until then, has the period that
/// it was created with and bursts after missed ticks. One that starts at the current
/// time does not sleep before its first tick.
pub proof fn law_new_interval(
    start: Instant,
    period: Duration,
    clock: Instant,
    at: Interval,
    immediate: Interval,
    at_slept: Duration,
    immediate_slept: Duration,
    at_period: Duration,
    immediate_period: Duration,
    at_behavior: MissedTickBehavior,
    immediate_behavior: MissedTickBehavior,
)
    requires
        period@ > 0,
        call_ensures(interval_at, (start, period, clock), at),
        call_ensures(interval, (period, start, clock), immediate),
        call_ensures(Interval::sleep_duration, (&at,), at_slept),
        call_ensures(Interval::sleep_duration, (&immediate,), immediate_slept),
        call_ensures(Interval::period, (&at,), at_period),
        call_ensures(Interval::period, (&immediate,), immediate_period),
        call_ensures(Interval::missed_tick_behavior, (&at,), at_behavior),
        call_ensures(Interval::missed_tick_behavior, (&immediate,), immediate_behavior),
    ensures
        ticks_next_at(at, start),
        ticks_next_at(immediate, start),
        clock@ <= start@ ==> at_slept@ == (start@ - clock@) * 1_000,
        clock@ >= start@ ==> at_slept@ == 0 && immediate_slept@ == 0,
        at_period == period,
        immediate_period == period,
        at_behavior == MissedTickBehavior::Burst,
        immediate_behavior == MissedTickBehavior::Burst,
{
}

/// Polling an interval whose sleep has not ended changes nothing, and neither ticks
/// nor resets change its period or its missed tick behavior.
pub proof fn law_interval_keeps_its_settings(
    waiting: &mut Interval,
    ticking: &mut Interval,
    resetting: &mut Interval,
    now: Instant,
    clock: Instant,
    deadline: Instant,
    pending: Poll<Instant>,
    tick: Poll<Instant>,
)
    requires
        waiting.wf(),
        ticking.wf(),
        resetting.wf(),
        call_ensures(Interval::poll_tick, (waiting, Poll::Pending, now, clock), pending),
        call_ensures(Interval::poll_tick, (ticking, Poll::Ready(()), now, clock), tick),
        call_ensures(Interval::reset_at, (resetting, deadline, clock), ()),
    ensures
        pending is Pending,
        *final(waiting) == *old(waiting),
        same_settings(*old(ticking), *final(ticking)),
        same_settings(*old(resetting), *final(resetting)),
{
}

/// Setting the missed tick behavior of an interval changes that and nothing else.
pub proof fn law_setting_the_behavior_changes_nothing_else(
    interval: &mut Interval,
    behavior: MissedTickBehavior,
    set: MissedTickBehavior,
    period: Duration,
    kept_period: Duration,
    slept: Duration,
    kept_slept: Duration,
    deadline: Instant,
)
    requires
        call_ensures(Interval::set_missed_tick_behavior, (interval, behavior), ()),
        call_ensures(Interval::missed_tick_behavior, (&*final(interval),), set),
        call_ensures(Interval::period, (&*interval,), period),
        call_ensures(Interval::period, (&*final(interval),), kept_period),
        call_ensures(Interval::sleep_duration, (&*interval,), slept),
        call_ensures(Interval::sleep_duration, (&*final(interval),), kept_slept),
        interval.deadline() == deadline,
    ensures
        set == behavior,
        kept_period == period,
        kept_slept == slept,
        ticks_next_at(*final(interval), deadline),
{
}

/// Whether both intervals report the same period and the same missed tick behavior.
pub open spec fn same_settings(a: Interval, b: Interval) -> bool {
    &&& forall|x: Duration, y: Duration| #[trigger]
        call_ensures(Interval::period, (&a,), x) && #[trigger] call_ensures(
            Interval::period,
            (&b,),
            y,
        ) ==> x == y
    &&& forall|x: MissedTickBehavior, y: MissedTickBehavior| #[trigger]
        call_ensures(Interval::missed_tick_behavior, (&a,), x) && #[trigger] call_ensures(
            Interval::missed_tick_behavior,
            (&b,),
            y,
        ) ==> x == y
}

/// Every interval with a period is a valid one, and no other one is.
pub proof fn law_interval_needs_a_period(interval: Interval, period: Duration)
    requires
        call_ensures(Interval::period, (&interval,), period),
    ensures
        interval.wf() <==> period@ > 0,
{
}

/// The specification functions of intervals and timeouts show their fields.
proof fn law_intervals_show_their_fields<F>(interval: Interval, timeout: Timeout<F>)
    ensures
        interval.deadline() == interval.deadline,
        interval.spacing() == interval.period,
        interval.behavior() == interval.missed_tick_behavior,
        interval.delay() == interval.sleep,
        timeout.limit() == timeout.sleep,
        timeout.inner() == timeout.future,
{
}

} // verus!

//! JavaScript sleep.
//!
//! `setTimeout` takes its delay as a 32-bit signed number of milliseconds. A
//! longer sleep is performed by arming the timer repeatedly, once for each chunk
//! of the sleep that fits.
use crate::duration::Duration;
use crate::poll::Poll;
use vstd::prelude::*;

verus! {

/// Longest delay in milliseconds that can be passed to `setTimeout`, i.e. roughly 24.8 days.
///
/// A larger value would overflow the 32-bit signed integer that specifies the
/// delay, causing the timer to fire immediately.
pub const MAX_TIMEOUT_MILLIS: u64 = 2_147_483_647;

/// The part of a sleep of `remaining` nanoseconds that one timer covers.
pub open spec fn chunk(remaining: nat) -> nat {
    if remaining <= MAX_TIMEOUT_MILLIS * 1_000_000 {
        remaining
    } else {
        (MAX_TIMEOUT_MILLIS * 1_000_000) as nat
    }
}

/// `nanos` nanoseconds in milliseconds, rounded up.
pub open spec fn whole_millis(nanos: nat) -> nat {
    (nanos + 999_999) / 1_000_000
}

/// Whether a delay of `millis` milliseconds covers what is slept of `before`
/// nanoseconds when `after` are left: it lasts as long, rounded up to the next
/// millisecond only at the end of the sleep, and anything is left only if it is
/// the longest delay.
pub open spec fn covers(before: nat, millis: nat, after: nat) -> bool {
    &&& after <= before
    &&& before <= millis * 1_000_000 + after < before + 1_000_000
    &&& after > 0 ==> millis * 1_000_000 + after == before && millis == MAX_TIMEOUT_MILLIS
}

/// The delays in milliseconds for which the timer is armed, one after the other,
/// in the course of a sleep of `duration` nanoseconds.
pub open spec fn timeouts(duration: nat) -> Seq<nat>
    decreases duration,
{
    if duration <= MAX_TIMEOUT_MILLIS * 1_000_000 {
        seq![whole_millis(duration)]
    } else {
        seq![MAX_TIMEOUT_MILLIS as nat] + timeouts(
            (duration - MAX_TIMEOUT_MILLIS * 1_000_000) as nat,
        )
    }
}

/// The sum of all delays.
pub open spec fn total(delays: Seq<nat>) -> nat
    decreases delays.len(),
{
    if delays.len() == 0 {
        0
    } else {
        delays.first() + total(delays.drop_first())
    }
}

/// A sleep that is carried out by JavaScript timers.
///
/// Whoever owns this registers a timer for each delay that [`new`](JsSleep::new)
/// and [`expired`](JsSleep::expired) hand out, and reports its identifier through
/// [`armed`](JsSleep::armed). `W` is what wakes the task that awaits the sleep.
pub struct JsSleep<W> {
    remaining: Duration,
    fired: bool,
    waker: Option<W>,
    timeout_id: Option<i32>,
}

/// What has to be done once the armed timer has expired.
pub enum Expiry<W> {
    /// Arm the timer again, for this number of milliseconds.
    Rearm(i32),
    /// The sleep is over. Wake the task, if one is waiting.
    Wake(Option<W>),
}

impl<W> JsSleep<W> {
    /// Number of nanoseconds that are not covered by the currently armed timer.
    pub closed spec fn remaining_nanos(self) -> nat {
        self.remaining@
    }

    /// Whether the sleep is over.
    pub closed spec fn fired(self) -> bool {
        self.fired
    }

    /// What wakes the task that awaits the sleep.
    pub closed spec fn waker(self) -> Option<W> {
        self.waker
    }

    /// Identifier of the armed timer.
    pub closed spec fn timer(self) -> Option<i32> {
        self.timeout_id
    }

    /// The delays for which the timer is yet to be armed.
    pub open spec fn due(self) -> Seq<nat> {
        if self.remaining_nanos() == 0 {
            seq![]
        } else {
            timeouts(self.remaining_nanos())
        }
    }

    /// Once the sleep is over nothing is left to be armed, to be cleared or to be woken.
    pub open spec fn wf(self) -> bool {
        self.fired() ==> self.remaining_nanos() == 0 && self.timer() is None && self.waker()
            is None
    }

    /// Starts a sleep of the specified duration.
    ///
    /// Returns the sleep and the delay in milliseconds for which its timer has to
    /// be armed first.
    pub fn new(duration: Duration) -> (r: (Self, i32))
        ensures
            r.0.wf(),
            r.0.remaining_nanos() == duration@ - chunk(duration@),
            !r.0.fired(),
            r.0.waker() is None,
            r.0.timer() is None,
            r.1 == whole_millis(chunk(duration@)),
            covers(duration@, r.1 as nat, r.0.remaining_nanos()),
            timeouts(duration@) == seq![r.1 as nat] + r.0.due(),
    {
        let mut sleep = JsSleep { remaining: duration, fired: false, waker: None, timeout_id: None };
        let timeout: i32 = sleep.arm();
        (sleep, timeout)
    }

    /// Sets the next chunk of the remaining sleep aside for the timer and returns
    /// the delay for which it has to be armed.
    ///
    /// The delay is specified in whole milliseconds and is rounded up, so that
    /// the sleep never completes early.
    fn arm(&mut self) -> (timeout: i32)
        ensures
            final(self).remaining_nanos() == old(self).remaining_nanos() - chunk(
                old(self).remaining_nanos(),
            ),
            final(self).fired() == old(self).fired(),
            final(self).waker() == old(self).waker(),
            final(self).timer() == old(self).timer(),
            timeout == whole_millis(chunk(old(self).remaining_nanos())),
            covers(old(self).remaining_nanos(), timeout as nat, final(self).remaining_nanos()),
            timeouts(old(self).remaining_nanos()) == seq![timeout as nat] + final(self).due(),
    {
        let chunk = self.remaining.min(Duration::from_millis(MAX_TIMEOUT_MILLIS));
        self.remaining = self.remaining.saturating_sub(chunk);
        ((chunk.as_nanos() + 999_999) / 1_000_000) as i32
    }

    /// Records the identifier of the timer that was armed.
    pub fn armed(&mut self, timeout_id: i32)
        requires
            old(self).wf(),
            !old(self).fired(),
        ensures
            final(self).wf(),
            final(self).timer() == Some(timeout_id),
            final(self).remaining_nanos() == old(self).remaining_nanos(),
            final(self).fired() == old(self).fired(),
            final(self).waker() == old(self).waker(),
    {
        self.timeout_id = Some(timeout_id);
    }

    /// Reacts to the expiry of the armed timer.
    pub fn expired(&mut self) -> (r: Expiry<W>)
        requires
            old(self).wf(),
        ensures
            final(self).wf(),
            final(self).timer() is None,
            old(self).remaining_nanos() == 0 ==> {
                &&& r == Expiry::Wake(old(self).waker())
                &&& final(self).fired()
                &&& final(self).waker() is None
                &&& final(self).remaining_nanos() == 0
            },
            old(self).remaining_nanos() > 0 ==> {
                &&& r matches Expiry::Rearm(timeout)
                &&& timeout == whole_millis(chunk(old(self).remaining_nanos()))
                &&& covers(
                    old(self).remaining_nanos(),
                    timeout as nat,
                    final(self).remaining_nanos(),
                )
                &&& old(self).due() == seq![timeout as nat] + final(self).due()
                &&& final(self).remaining_nanos() == old(self).remaining_nanos() - chunk(
                    old(self).remaining_nanos(),
                )
                &&& !final(self).fired()
                &&& final(self).waker() == old(self).waker()
            },
    {
        self.timeout_id = None;
        if self.remaining.is_zero() {
            self.fired = true;
            let waker = self.waker.take();
            Expiry::Wake(waker)
        } else {
            Expiry::Rearm(self.arm())
        }
    }

    /// Waits until the sleep duration has elapsed.
    ///
    /// Until then, `waker` replaces what was to be woken so far.
    pub fn poll(&mut self, waker: W) -> (r: Poll<()>)
        requires
            old(self).wf(),
        ensures
            final(self).wf(),
            r == if old(self).fired() {
                Poll::Ready(())
            } else {
                Poll::Pending
            },
            final(self).waker() == if old(self).fired() {
                None
            } else {
                Some(waker)
            },
            final(self).remaining_nanos() == old(self).remaining_nanos(),
            final(self).fired() == old(self).fired(),
            final(self).timer() == old(self).timer(),
    {
        if self.fired {
            return Poll::Ready(());
        }
        self.waker = Some(waker);
        Poll::Pending
    }

    /// Gives the sleep up and returns the timer that has to be cleared.
    pub fn cancel(&mut self) -> (r: Option<i32>)
        requires
            old(self).wf(),
        ensures
            final(self).wf(),
            r == old(self).timer(),
            final(self).timer() is None,
            final(self).remaining_nanos() == old(self).remaining_nanos(),
            final(self).fired() == old(self).fired(),
            final(self).waker() == old(self).waker(),
    {
        self.timeout_id.take()
    }

    /// Sleep duration that is not covered by the currently armed timer.
    pub fn remaining(&self) -> (r: Duration)
        ensures
            r@ == self.remaining_nanos(),
    {
        self.remaining
    }

    /// Identifier of the armed timer.
    pub fn timeout_id(&self) -> (r: Option<i32>)
        ensures
            r == self.timer(),
    {
        self.timeout_id
    }
}

/// Over the whole sleep the timer is armed for exactly the duration rounded up
/// to whole milliseconds, so the sleep never completes early, and no single
/// delay exceeds what `setTimeout` accepts.
pub proof fn law_sleep_takes_the_duration_rounded_up(duration: nat)
    ensures
        total(timeouts(duration)) == whole_millis(duration),
        total(timeouts(duration)) * 1_000_000 >= duration,
        forall|i: int|
            0 <= i < timeouts(duration).len() ==> #[trigger] timeouts(duration)[i]
                <= MAX_TIMEOUT_MILLIS,
    decreases duration,
{
    let delays = timeouts(duration);
    if duration > MAX_TIMEOUT_MILLIS * 1_000_000 {
        let rest = (duration - MAX_TIMEOUT_MILLIS * 1_000_000) as nat;
        law_sleep_takes_the_duration_rounded_up(rest);
        assert(delays.drop_first() =~= timeouts(rest));
        assert forall|i: int| 0 <= i < delays.len() implies #[trigger] delays[i]
            <= MAX_TIMEOUT_MILLIS by {
            if i > 0 {
                assert(delays[i] == timeouts(rest)[i - 1]);
            }
        }
    } else {
        assert(delays.drop_first() =~= Seq::<nat>::empty());
        assert(total(delays.drop_first()) == 0);
    }
}

/// A sleep of at most the longest delay is carried out by a single timer; a
/// longer one takes one timer for each full or final chunk, so it does not fire
/// when its first timer expires.
pub proof fn law_long_sleep_is_chunked(duration: nat)
    ensures
        duration == 0 ==> timeouts(duration) == seq![0nat],
        duration > 0 ==> timeouts(duration).len() == (duration + MAX_TIMEOUT_MILLIS * 1_000_000
            - 1) / (MAX_TIMEOUT_MILLIS * 1_000_000),
        duration > MAX_TIMEOUT_MILLIS * 1_000_000 ==> timeouts(duration).len() >= 2,
    decreases duration,
{
    if duration > MAX_TIMEOUT_MILLIS * 1_000_000 {
        law_long_sleep_is_chunked((duration - MAX_TIMEOUT_MILLIS * 1_000_000) as nat);
    }
}

/// Over the whole sleep the timer is armed for the duration, rounded up by less than
/// a millisecond: the sleep is never too short and never a millisecond too long.
pub proof fn law_sleep_lasts_the_duration(duration: nat)
    ensures
        duration <= total(timeouts(duration)) * 1_000_000 < duration + 1_000_000,
{
    law_sleep_takes_the_duration_rounded_up(duration);
}

/// The first timer of a sleep covers the duration up to what is left: all of it,
/// rounded up by less than a millisecond, if it fits into one timer, and otherwise
/// the longest delay.
pub proof fn law_first_timer_of_a_sleep<W>(
    duration: Duration,
    started: (JsSleep<W>, i32),
    left: Duration,
)
    requires
        call_ensures(JsSleep::<W>::new, (duration,), started),
        call_ensures(JsSleep::<W>::remaining, (&started.0,), left),
    ensures
        0 <= started.1,
        duration@ <= started.1 * 1_000_000 + left@ < duration@ + 1_000_000,
        left@ > 0 <==> duration@ > 2_147_483_647 * 1_000_000,
        left@ > 0 ==> started.1 == i32::MAX && started.1 * 1_000_000 + left@ == duration@,
{
}

/// When a timer expires, the sleep is over if and only if nothing is left of it, and
/// then the task that waits is woken. Otherwise the next timer covers what is left
/// up to what is left afterwards.
pub proof fn law_next_timer_of_a_sleep<W>(
    sleep: &mut JsSleep<W>,
    before: Duration,
    after: Duration,
    expiry: Expiry<W>,
)
    requires
        sleep.wf(),
        call_ensures(JsSleep::<W>::remaining, (&*sleep,), before),
        call_ensures(JsSleep::<W>::expired, (sleep,), expiry),
        call_ensures(JsSleep::<W>::remaining, (&*final(sleep),), after),
    ensures
        expiry is Wake <==> before@ == 0,
        expiry matches Expiry::Wake(waker) ==> waker == old(sleep).waker() && after@ == 0,
        expiry matches Expiry::Rearm(millis) ==> {
            &&& 0 < millis
            &&& before@ <= millis * 1_000_000 + after@ < before@ + 1_000_000
            &&& after@ > 0 <==> before@ > 2_147_483_647 * 1_000_000
            &&& after@ > 0 ==> millis == i32::MAX && millis * 1_000_000 + after@ == before@
        },
{
}

/// A series of timers, each of which covers what was left of the sleep before it up
/// to what is left after it, the last one all the rest, lasts the duration of the
/// sleep, rounded up by less than a millisecond.
pub proof fn law_timers_add_up(duration: nat, delays: Seq<nat>, left: Seq<nat>)
    requires
        delays.len() > 0,
        delays.len() == left.len(),
        left.last() == 0,
        forall|i: int|
            #![trigger delays[i]]
            0 <= i < delays.len() ==> {
                let before = if i == 0 {
                    duration
                } else {
                    left[i - 1]
                };
                &&& before <= delays[i] * 1_000_000 + left[i] < before + 1_000_000
                &&& left[i] > 0 ==> delays[i] * 1_000_000 + left[i] == before
            },
        forall|i: int| 0 <= i < left.len() - 1 ==> #[trigger] left[i] > 0,
    ensures
        duration <= total(delays) * 1_000_000 < duration + 1_000_000,
    decreases delays.len(),
{
    assert(delays[0] == delays.first());
    if delays.len() == 1 {
        assert(delays.drop_first() =~= Seq::<nat>::empty());
        assert(total(delays.drop_first()) == 0);
    } else {
        assert(left[0] > 0);
        assert forall|i: int|
            #![trigger delays.drop_first()[i]]
            0 <= i < delays.drop_first().len() implies ({
            let before = if i == 0 {
                left[0]
            } else {
                left.drop_first()[i - 1]
            };
            &&& before <= delays.drop_first()[i] * 1_000_000 + left.drop_first()[i] < before
                + 1_000_000
            &&& left.drop_first()[i] > 0 ==> delays.drop_first()[i] * 1_000_000
                + left.drop_first()[i] == before
        }) by {
            assert(delays.drop_first()[i] == delays[i + 1]);
        }
        assert forall|i: int| 0 <= i < left.drop_first().len() - 1 implies #[trigger] left.drop_first()[i]
            > 0 by {
            assert(left.drop_first()[i] == left[i + 1]);
        }
        law_timers_add_up(left[0], delays.drop_first(), left.drop_first());
    }
}

/// A sleep that was just started is not over. Whoever polls it until its last timer
/// expires is the one to be woken, and from then on it is over.
pub proof fn law_sleep_is_over_when_its_last_timer_expires<W>(
    started: (JsSleep<W>, i32),
    duration: Duration,
    sleep: &mut JsSleep<W>,
    waker: W,
    polled: Poll<()>,
    expiring: &mut JsSleep<W>,
    expiry: Expiry<W>,
    over: &mut JsSleep<W>,
    other: W,
    polled_again: Poll<()>,
)
    requires
        call_ensures(JsSleep::<W>::new, (duration,), started),
        *sleep == started.0,
        call_ensures(JsSleep::<W>::poll, (sleep, waker), polled),
        *expiring == *final(sleep),
        call_ensures(JsSleep::<W>::expired, (expiring,), expiry),
        *over == *final(expiring),
        call_ensures(JsSleep::<W>::poll, (over, other), polled_again),
    ensures
        polled is Pending,
        expiry is Wake ==> expiry == Expiry::Wake(Some(waker)) && polled_again is Ready,
        expiry is Rearm ==> polled_again is Pending,
        expiry is Wake <==> duration@ <= 2_147_483_647 * 1_000_000,
{
}

/// The timer that has to be cleared when a sleep is given up is the one that was
/// armed last and has not expired.
pub proof fn law_armed_timer_is_cleared<W>(
    arming: &mut JsSleep<W>,
    id: i32,
    cancelled: &mut JsSleep<W>,
    cleared: Option<i32>,
    expiring: &mut JsSleep<W>,
    expiry: Expiry<W>,
    spent: &mut JsSleep<W>,
    nothing: Option<i32>,
)
    requires
        arming.wf(),
        !arming.fired(),
        call_ensures(JsSleep::<W>::armed, (arming, id), ()),
        *cancelled == *final(arming),
        call_ensures(JsSleep::<W>::cancel, (cancelled,), cleared),
        *expiring == *final(arming),
        call_ensures(JsSleep::<W>::expired, (expiring,), expiry),
        *spent == *final(expiring),
        call_ensures(JsSleep::<W>::cancel, (spent,), nothing),
    ensures
        cleared == Some(id),
        nothing is None,
{
}

/// Whoever has polled a sleep last is woken at its end, also if timers were armed again
/// or reported in the meantime, and polling or reporting takes nothing off what is left
/// of the sleep.
pub proof fn law_last_poller_is_woken<W>(
    sleep: &mut JsSleep<W>,
    waker: W,
    polled: Poll<()>,
    arming: &mut JsSleep<W>,
    id: i32,
    first: &mut JsSleep<W>,
    expiry: Expiry<W>,
    second: &mut JsSleep<W>,
    next_expiry: Expiry<W>,
    before: Duration,
    after: Duration,
)
    requires
        sleep.wf(),
        call_ensures(JsSleep::<W>::remaining, (&*sleep,), before),
        call_ensures(JsSleep::<W>::poll, (sleep, waker), polled),
        polled is Pending,
        *arming == *final(sleep),
        call_ensures(JsSleep::<W>::armed, (arming, id), ()),
        call_ensures(JsSleep::<W>::remaining, (&*final(arming),), after),
        *first == *final(arming),
        call_ensures(JsSleep::<W>::expired, (first,), expiry),
        *second == *final(first),
        call_ensures(JsSleep::<W>::expired, (second,), next_expiry),
    ensures
        after@ == before@,
        expiry matches Expiry::Wake(woken) ==> woken == Some(waker),
        expiry is Rearm ==> (next_expiry matches Expiry::Wake(woken) ==> woken == Some(waker)),
        expiry is Wake ==> next_expiry == Expiry::Wake(None::<W>),
{
}

} // verus!

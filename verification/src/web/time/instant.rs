//! Monotonic clock.
use crate::duration::Duration;
use std::cmp::Ordering;
use vstd::prelude::*;
use vstd::std_specs::cmp::PartialOrdSpecImpl;
use vstd::std_specs::ops::{AddSpecImpl, SubSpecImpl};

verus! {

/// A measurement of a monotonically increasing clock.
///
/// Its [view](View) is the number of microseconds since the origin of the clock.
#[derive(Clone, Copy, Debug, Eq, Hash, Ord, PartialEq, Structural)]
pub struct Instant {
    micros: u64,
}

impl View for Instant {
    type V = nat;

    closed spec fn view(&self) -> nat {
        self.micros as nat
    }
}

/// `micros` capped at the last microsecond that an [`Instant`] can represent.
pub open spec fn capped(micros: nat) -> nat {
    if micros <= u64::MAX {
        micros
    } else {
        u64::MAX as nat
    }
}

/// `a - b`, or zero if `b` is larger.
pub open spec fn less(a: nat, b: nat) -> nat {
    if a >= b {
        (a - b) as nat
    } else {
        0
    }
}

impl Instant {
    /// The instant `micros` microseconds after the origin of the clock.
    pub fn from_micros(micros: u64) -> (r: Self)
        ensures
            r@ == micros,
    {
        Instant { micros }
    }

    /// The amount of time elapsed since this instant when the clock shows `now`.
    pub fn elapsed(&self, now: Instant) -> (r: Duration)
        ensures
            r@ == less(now@, self@) * 1_000,
    {
        now.duration_since(*self)
    }

    /// The amount of time elapsed from `earlier` to this instant, or
    /// zero duration if `earlier` is later than this instant.
    pub fn duration_since(&self, earlier: Instant) -> (r: Duration)
        ensures
            r@ == less(self@, earlier@) * 1_000,
    {
        Duration::from_micros(self.micros.saturating_sub(earlier.micros))
    }

    /// The amount of time elapsed from `earlier` to this instant, or
    /// zero duration if `earlier` is later than this instant.
    pub fn saturating_duration_since(&self, earlier: Instant) -> (r: Duration)
        ensures
            r@ == less(self@, earlier@) * 1_000,
    {
        self.duration_since(earlier)
    }

    /// Adds the duration to this instant, if the resulting value is representable.
    ///
    /// The duration counts in whole microseconds.
    pub fn checked_add(&self, duration: Duration) -> (r: Option<Self>)
        ensures
            r is Some <==> self@ + duration@ / 1_000 <= u64::MAX,
            r matches Some(sum) ==> sum@ == self@ + duration@ / 1_000,
    {
        let micros: u128 = duration.as_micros();
        if micros > u64::MAX as u128 {
            return None;
        }
        match self.micros.checked_add(micros as u64) {
            Some(micros) => Some(Instant { micros }),
            None => None,
        }
    }

    /// Subtracts the duration from this instant, if the resulting value is representable.
    ///
    /// The duration counts in whole microseconds.
    pub fn checked_sub(&self, duration: Duration) -> (r: Option<Self>)
        ensures
            r is Some <==> duration@ / 1_000 <= self@,
            r matches Some(difference) ==> difference@ == self@ - duration@ / 1_000,
    {
        let micros: u128 = duration.as_micros();
        if micros > u64::MAX as u128 {
            return None;
        }
        match self.micros.checked_sub(micros as u64) {
            Some(micros) => Some(Instant { micros }),
            None => None,
        }
    }
}

/// The number of whole microseconds in `duration`, capped at [`u64::MAX`].
fn capped_micros(duration: Duration) -> (r: u64)
    ensures
        r == capped(duration@ / 1_000),
{
    let micros: u128 = duration.as_micros();
    if micros <= u64::MAX as u128 {
        micros as u64
    } else {
        u64::MAX
    }
}

impl PartialOrd for Instant {
    fn partial_cmp(&self, other: &Instant) -> (r: Option<Ordering>) {
        if self.micros < other.micros {
            Some(Ordering::Less)
        } else if self.micros == other.micros {
            Some(Ordering::Equal)
        } else {
            Some(Ordering::Greater)
        }
    }
}

impl PartialOrdSpecImpl for Instant {
    open spec fn obeys_partial_cmp_spec() -> bool {
        true
    }

    open spec fn partial_cmp_spec(&self, other: &Instant) -> Option<Ordering> {
        if self@ < other@ {
            Some(Ordering::Less)
        } else if self@ == other@ {
            Some(Ordering::Equal)
        } else {
            Some(Ordering::Greater)
        }
    }
}

impl Instant {
    /// The instant `micros` microseconds after the origin of the clock.
    pub closed spec fn at(micros: nat) -> Instant {
        Instant { micros: micros as u64 }
    }

    /// This instant moved later by the whole microseconds of the duration,
    /// stopping at the last representable instant.
    pub open spec fn later(self, duration: Duration) -> Instant {
        Instant::at(capped(self@ + duration@ / 1_000))
    }

    /// This instant moved earlier by the whole microseconds of the duration,
    /// stopping at the origin of the clock.
    pub open spec fn sooner(self, duration: Duration) -> Instant {
        Instant::at(less(self@, duration@ / 1_000))
    }

    /// The amount of time elapsed from `other` to this instant, or zero if
    /// `other` is later.
    pub open spec fn since(self, other: Instant) -> Duration {
        Duration::spanning(less(self@, other@) * 1_000)
    }
}

impl std::ops::Add<Duration> for Instant {
    type Output = Instant;

    /// This instant moved later by the whole microseconds of the duration,
    /// stopping at the last representable instant.
    fn add(self, duration: Duration) -> (r: Instant)
        ensures
            r@ == capped(self@ + duration@ / 1_000),
    {
        Instant { micros: self.micros.saturating_add(capped_micros(duration)) }
    }
}

impl AddSpecImpl<Duration> for Instant {
    open spec fn obeys_add_spec() -> bool {
        true
    }

    open spec fn add_req(self, duration: Duration) -> bool {
        true
    }

    open spec fn add_spec(self, duration: Duration) -> Instant {
        self.later(duration)
    }
}

impl std::ops::AddAssign<Duration> for Instant {
    fn add_assign(&mut self, duration: Duration)
        ensures
            final(self)@ == capped(old(self)@ + duration@ / 1_000),
            *final(self) == old(self).later(duration),
            old(self)@ <= final(self)@,
            (final(self)@ - old(self)@) * 1_000 <= duration@,
            duration@ < (final(self)@ - old(self)@) * 1_000 + 1_000 || final(self)@ == u64::MAX,
    {
        *self = *self + duration;
    }
}

impl std::ops::Sub<Instant> for Instant {
    type Output = Duration;

    /// The amount of time elapsed from `other` to this instant, or zero if
    /// `other` is later.
    fn sub(self, other: Instant) -> (r: Duration)
        ensures
            r@ == less(self@, other@) * 1_000,
    {
        let elapsed = self.duration_since(other);
        proof {
            crate::duration::law_duration_is_its_nanos(elapsed);
        }
        elapsed
    }
}

impl SubSpecImpl<Instant> for Instant {
    open spec fn obeys_sub_spec() -> bool {
        true
    }

    open spec fn sub_req(self, other: Instant) -> bool {
        true
    }

    open spec fn sub_spec(self, other: Instant) -> Duration {
        self.since(other)
    }
}

impl std::ops::Sub<Duration> for Instant {
    type Output = Instant;

    /// This instant moved earlier by the whole microseconds of the duration,
    /// stopping at the origin of the clock.
    fn sub(self, duration: Duration) -> (r: Instant)
        ensures
            r@ == less(self@, duration@ / 1_000),
    {
        Instant { micros: self.micros.saturating_sub(capped_micros(duration)) }
    }
}

impl SubSpecImpl<Duration> for Instant {
    open spec fn obeys_sub_spec() -> bool {
        true
    }

    open spec fn sub_req(self, duration: Duration) -> bool {
        true
    }

    open spec fn sub_spec(self, duration: Duration) -> Instant {
        self.sooner(duration)
    }
}

impl std::ops::SubAssign<Duration> for Instant {
    fn sub_assign(&mut self, duration: Duration)
        ensures
            final(self)@ == less(old(self)@, duration@ / 1_000),
            *final(self) == old(self).sooner(duration),
            final(self)@ <= old(self)@,
            (old(self)@ - final(self)@) * 1_000 <= duration@,
            duration@ < (old(self)@ - final(self)@) * 1_000 + 1_000 || final(self)@ == 0,
    {
        *self = *self - duration;
    }
}

/// An instant is determined by its distance from the origin of the clock.
pub proof fn law_instant_is_its_micros(instant: Instant)
    ensures
        Instant::at(instant@) == instant,
        instant@ <= u64::MAX,
        forall|other: Instant| other@ == instant@ ==> other == instant,
{
}

/// Moving an instant later by a duration and back again returns to it, unless
/// the later instant is not representable.
pub proof fn law_add_then_sub_returns(instant: Instant, duration: Duration)
    requires
        instant@ + duration@ / 1_000 <= u64::MAX,
    ensures
        instant.later(duration).sooner(duration) == instant,
{
}

/// The time elapsed between an instant and the one that lies a duration later is
/// that duration in whole microseconds, unless the later instant is not
/// representable.
pub proof fn law_elapsed_is_what_was_added(instant: Instant, duration: Duration)
    requires
        instant@ + duration@ / 1_000 <= u64::MAX,
    ensures
        instant.later(duration).since(instant)@ == duration@ / 1_000 * 1_000,
{
    crate::duration::law_every_span_has_a_duration(duration@ / 1_000 * 1_000);
}

/// Of the times from one instant to another and back, at least one is zero, and
/// adding the time from the earlier to the later one leads to the later one.
pub proof fn law_elapsed_leads_to_the_later(a: Instant, b: Instant)
    ensures
        a.since(b)@ == 0 || b.since(a)@ == 0,
        a@ <= b@ ==> a.later(b.since(a)) == b,
        a.since(b)@ == 0 && b.since(a)@ == 0 ==> a == b,
{
    crate::duration::law_every_span_has_a_duration(less(a@, b@) * 1_000);
    crate::duration::law_every_span_has_a_duration(less(b@, a@) * 1_000);
}

/// Adding a duration never moves an instant earlier, and adding a longer one
/// never leads to an earlier instant.
pub proof fn law_add_is_monotonic(instant: Instant, shorter: Duration, longer: Duration)
    requires
        shorter@ <= longer@,
    ensures
        instant@ <= instant.later(shorter)@ <= instant.later(longer)@,
{
}

/// The order of instants is that of their distances from the origin of the clock.
/// It agrees with equality, with the time elapsed between them and with moving
/// an instant later.
pub proof fn law_instants_are_ordered_by_time(
    a: Instant,
    b: Instant,
    duration: Duration,
    order: Option<Ordering>,
)
    requires
        call_ensures(Instant::partial_cmp, (&a, &b), order),
    ensures
        order == Some(Ordering::Less) <==> a@ < b@,
        order == Some(Ordering::Equal) <==> a == b,
        order == Some(Ordering::Greater) <==> a@ > b@,
        order == Some(Ordering::Less) <==> b.since(a)@ > 0,
        order == Some(Ordering::Greater) <==> a.since(b)@ > 0,
        b == a.later(duration) && duration@ >= 1_000 && a@ + duration@ / 1_000 <= u64::MAX ==> order
            == Some(Ordering::Less),
{
    law_instant_is_its_micros(a);
    law_instant_is_its_micros(b);
    law_time_between_instants(a, b);
    law_time_between_instants(b, a);
}

/// The time from one instant to another is the difference of their distances from
/// the origin of the clock, and nothing if the other one is not later.
pub proof fn law_time_between_instants(a: Instant, b: Instant)
    ensures
        a@ <= b@ ==> b.since(a)@ == (b@ - a@) * 1_000,
        b@ <= a@ ==> b.since(a)@ == 0,
{
    crate::duration::law_every_span_has_a_duration(less(b@, a@) * 1_000);
}

/// All ways to ask for the time between two instants give the same answer: the
/// difference of their distances from the origin of the clock, and nothing if the
/// other one is not later.
pub proof fn law_elapsed_time_is_the_difference(
    from: u64,
    to: u64,
    earlier: Instant,
    later: Instant,
    elapsed: Duration,
    since: Duration,
    saturating: Duration,
    difference: Duration,
    nanos: u128,
)
    requires
        call_ensures(Instant::from_micros, (from,), earlier),
        call_ensures(Instant::from_micros, (to,), later),
        call_ensures(Instant::elapsed, (&earlier, later), elapsed),
        call_ensures(Instant::duration_since, (&later, earlier), since),
        call_ensures(Instant::saturating_duration_since, (&later, earlier), saturating),
        call_ensures(<Instant as std::ops::Sub<Instant>>::sub, (later, earlier), difference),
        call_ensures(Duration::as_nanos, (&elapsed,), nanos),
    ensures
        from <= to ==> nanos == (to - from) * 1_000,
        to <= from ==> nanos == 0,
        since == elapsed,
        saturating == elapsed,
        difference == elapsed,
{
    crate::duration::law_duration_is_its_nanos(elapsed);
}

/// Moving an instant later by a duration moves it by the whole microseconds of the
/// duration, so that the duration falls short of what it was moved by less than one
/// more. The last representable instant is not passed: the checked addition tells
/// when it would be.
pub proof fn law_adding_a_duration(
    instant: Instant,
    duration: Duration,
    sum: Instant,
    checked: Option<Instant>,
)
    requires
        call_ensures(<Instant as std::ops::Add<Duration>>::add, (instant, duration), sum),
        call_ensures(Instant::checked_add, (&instant, duration), checked),
    ensures
        checked is Some ==> checked == Some(sum),
        checked is Some ==> (sum@ - instant@) * 1_000 <= duration@ < (sum@ - instant@) * 1_000
            + 1_000,
        checked is None ==> sum@ == u64::MAX && duration@ >= (sum@ - instant@) * 1_000 + 1_000,
        instant.later(duration) == sum,
{
    law_instant_is_its_micros(sum);
    if let Some(checked) = checked {
        law_instant_is_its_micros(checked);
    }
}

/// Moving an instant earlier by a duration moves it by the whole microseconds of
/// the duration. The origin of the clock is not passed: the checked subtraction tells
/// when it would be.
pub proof fn law_subtracting_a_duration(
    instant: Instant,
    duration: Duration,
    difference: Instant,
    checked: Option<Instant>,
)
    requires
        call_ensures(<Instant as std::ops::Sub<Duration>>::sub, (instant, duration), difference),
        call_ensures(Instant::checked_sub, (&instant, duration), checked),
    ensures
        checked is Some ==> checked == Some(difference),
        checked is Some ==> (instant@ - difference@) * 1_000 <= duration@ < (instant@
            - difference@) * 1_000 + 1_000,
        checked is None ==> difference@ == 0 && duration@ >= instant@ * 1_000 + 1_000,
        instant.sooner(duration) == difference,
{
    law_instant_is_its_micros(difference);
    if let Some(checked) = checked {
        law_instant_is_its_micros(checked);
    }
}

} // verus!

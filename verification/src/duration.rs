//! Spans of time.
use vstd::prelude::*;

verus! {

/// Number of nanoseconds in the longest representable [`Duration`].
pub const MAX_NANOS: u128 = 18_446_744_073_709_551_615_999_999_999;

/// A span of time with nanosecond resolution.
///
/// Its [view](View) is the number of nanoseconds that it spans, which never
/// exceeds [`MAX_NANOS`], so that the number of whole seconds fits into 64 bits.
#[derive(Clone, Copy, Debug, PartialEq, Eq, Structural, PartialOrd, Ord, Hash)]
pub struct Duration {
    nanos: u128,
}

impl View for Duration {
    type V = nat;

    closed spec fn view(&self) -> nat {
        self.nanos as nat
    }
}

impl Duration {
    #[verifier::type_invariant]
    spec fn representable(self) -> bool {
        self.nanos <= MAX_NANOS
    }

    /// The duration of `nanos` nanoseconds.
    pub closed spec fn spanning(nanos: nat) -> Duration {
        Duration { nanos: nanos as u128 }
    }

    /// The duration of `secs` seconds and `nanos` nanoseconds.
    pub fn new(secs: u64, nanos: u32) -> (r: Self)
        requires
            secs * 1_000_000_000 + nanos <= MAX_NANOS,
        ensures
            r@ == secs * 1_000_000_000 + nanos,
    {
        Duration { nanos: secs as u128 * 1_000_000_000 + nanos as u128 }
    }

    /// The duration of `secs` seconds.
    pub fn from_secs(secs: u64) -> (r: Self)
        ensures
            r@ == secs * 1_000_000_000,
    {
        Duration { nanos: secs as u128 * 1_000_000_000 }
    }

    /// The duration of `millis` milliseconds.
    pub fn from_millis(millis: u64) -> (r: Self)
        ensures
            r@ == millis * 1_000_000,
    {
        Duration { nanos: millis as u128 * 1_000_000 }
    }

    /// The duration of `micros` microseconds.
    pub fn from_micros(micros: u64) -> (r: Self)
        ensures
            r@ == micros * 1_000,
    {
        Duration { nanos: micros as u128 * 1_000 }
    }

    /// The duration of `nanos` nanoseconds.
    pub fn from_nanos(nanos: u64) -> (r: Self)
        ensures
            r@ == nanos,
    {
        Duration { nanos: nanos as u128 }
    }

    /// The longest representable duration.
    pub fn max() -> (r: Self)
        ensures
            r@ == MAX_NANOS,
    {
        Duration { nanos: MAX_NANOS }
    }

    /// The number of nanoseconds in this duration.
    pub fn as_nanos(&self) -> (r: u128)
        ensures
            r == self@,
            r <= MAX_NANOS,
    {
        proof {
            use_type_invariant(self);
        }
        self.nanos
    }

    /// The number of whole microseconds in this duration.
    pub fn as_micros(&self) -> (r: u128)
        ensures
            r == self@ / 1_000,
    {
        self.nanos / 1_000
    }

    /// The number of whole seconds in this duration.
    pub fn as_secs(&self) -> (r: u64)
        ensures
            r == self@ / 1_000_000_000,
    {
        proof {
            use_type_invariant(self);
        }
        (self.nanos / 1_000_000_000) as u64
    }

    /// The number of nanoseconds in this duration beyond its whole seconds.
    pub fn subsec_nanos(&self) -> (r: u32)
        ensures
            r == self@ % 1_000_000_000,
    {
        (self.nanos % 1_000_000_000) as u32
    }

    /// Whether this duration spans no time.
    pub fn is_zero(&self) -> (r: bool)
        ensures
            r == (self@ == 0),
    {
        self.nanos == 0
    }

    /// The shorter of two durations.
    pub fn min(self, other: Self) -> (r: Self)
        ensures
            r == if self@ <= other@ {
                self
            } else {
                other
            },
    {
        if self.nanos <= other.nanos {
            self
        } else {
            other
        }
    }

    /// This duration less the other one, or zero if the other one is longer.
    pub fn saturating_sub(self, other: Self) -> (r: Self)
        ensures
            r@ == if self@ >= other@ {
                self@ - other@
            } else {
                0
            },
    {
        proof {
            use_type_invariant(&self);
        }
        if self.nanos >= other.nanos {
            Duration { nanos: self.nanos - other.nanos }
        } else {
            Duration { nanos: 0 }
        }
    }
}

/// A duration is determined by the number of nanoseconds that it spans.
pub proof fn law_duration_is_its_nanos(duration: Duration)
    ensures
        Duration::spanning(duration@) == duration,
        forall|other: Duration| other@ == duration@ ==> other == duration,
{
}

/// Every number of nanoseconds up to the longest duration's has a duration.
pub proof fn law_every_span_has_a_duration(nanos: nat)
    requires
        nanos <= MAX_NANOS,
    ensures
        Duration::spanning(nanos)@ == nanos,
{
}

/// A duration is made up of its whole seconds and the nanoseconds beyond them, and
/// of its whole microseconds and less than one more.
pub proof fn law_parts_make_up_the_duration(
    duration: Duration,
    secs: u64,
    subsec: u32,
    nanos: u128,
    micros: u128,
    zero: bool,
)
    requires
        call_ensures(Duration::as_secs, (&duration,), secs),
        call_ensures(Duration::subsec_nanos, (&duration,), subsec),
        call_ensures(Duration::as_nanos, (&duration,), nanos),
        call_ensures(Duration::as_micros, (&duration,), micros),
        call_ensures(Duration::is_zero, (&duration,), zero),
    ensures
        secs * 1_000_000_000 + subsec == nanos,
        subsec < 1_000_000_000,
        micros * 1_000 <= nanos < micros * 1_000 + 1_000,
        zero <==> nanos == 0,
{
}

/// The units fit together: a second is a thousand milliseconds, and so on down to
/// the nanosecond.
pub proof fn law_units_fit_together(
    secs: u64,
    nanos: u32,
    whole: Duration,
    second: Duration,
    millis: Duration,
    micros: Duration,
    counted: Duration,
    whole_nanos: u128,
    second_nanos: u128,
    millis_nanos: u128,
    micros_nanos: u128,
    counted_nanos: u128,
)
    requires
        secs * 1_000_000_000 + nanos <= MAX_NANOS,
        call_ensures(Duration::new, (secs, nanos), whole),
        call_ensures(Duration::from_secs, (secs,), second),
        call_ensures(Duration::from_millis, (secs,), millis),
        call_ensures(Duration::from_micros, (secs,), micros),
        call_ensures(Duration::from_nanos, (secs,), counted),
        call_ensures(Duration::as_nanos, (&whole,), whole_nanos),
        call_ensures(Duration::as_nanos, (&second,), second_nanos),
        call_ensures(Duration::as_nanos, (&millis,), millis_nanos),
        call_ensures(Duration::as_nanos, (&micros,), micros_nanos),
        call_ensures(Duration::as_nanos, (&counted,), counted_nanos),
    ensures
        counted_nanos == secs,
        micros_nanos == 1_000 * counted_nanos,
        millis_nanos == 1_000 * micros_nanos,
        second_nanos == 1_000 * millis_nanos,
        whole_nanos == second_nanos + nanos,
{
}

/// The longest duration has as many whole seconds as can be counted, and no
/// duration is longer.
pub proof fn law_longest_duration(longest: Duration, secs: u64, subsec: u32, other: Duration, nanos: u128)
    requires
        call_ensures(Duration::max, (), longest),
        call_ensures(Duration::as_secs, (&longest,), secs),
        call_ensures(Duration::subsec_nanos, (&longest,), subsec),
        call_ensures(Duration::as_nanos, (&other,), nanos),
    ensures
        secs == u64::MAX,
        subsec == 999_999_999,
        nanos <= longest@,
{
}

/// The shorter of two durations is one of them and longer than neither. Taking a
/// duration off another one leaves what is missing to the longer one of the two.
pub proof fn law_shorter_and_difference(
    a: Duration,
    b: Duration,
    shorter: Duration,
    difference: Duration,
)
    requires
        call_ensures(Duration::min, (a, b), shorter),
        call_ensures(Duration::saturating_sub, (a, b), difference),
    ensures
        shorter == a || shorter == b,
        shorter@ <= a@,
        shorter@ <= b@,
        difference@ + shorter@ == a@,
{
}

} // verus!

use vstd::prelude::*;

verus! {

/// Nanoseconds in one second.
pub const NANOS_PER_SEC: u64 = 1_000_000_000;

/// Nanoseconds in one millisecond.
pub const NANOS_PER_MILLI: u64 = 1_000_000;

/// The latest reading the clock can represent, in nanoseconds since its origin:
/// `i64::MAX` whole seconds and 999_999_999 nanoseconds, the limit of the
/// seconds-and-nanoseconds pair behind `std::time::Instant` on Unix.
pub const MAX_INSTANT_NANOS: u128 = 9_223_372_036_854_775_807_999_999_999;

/// A span of time, counted in nanoseconds.
#[derive(Clone, Copy, Debug, PartialEq, Eq, Structural)]
pub struct Duration {
    nanos: u128,
}

impl View for Duration {
    type V = nat;

    closed spec fn view(&self) -> nat {
        self.nanos as nat
    }
}

impl Duration {
    /// The empty span.
    pub fn zero() -> (d: Duration)
        ensures
            d@ == 0,
    {
        Duration { nanos: 0 }
    }

    /// `secs` whole seconds and `subsec_nanos` nanoseconds.
    pub fn new(secs: u64, subsec_nanos: u32) -> (d: Duration)
        ensures
            d@ == secs * NANOS_PER_SEC + subsec_nanos,
    {
        let whole = Duration::from_secs(secs);
        Duration { nanos: whole.nanos + subsec_nanos as u128 }
    }

    pub fn from_nanos(nanos: u64) -> (d: Duration)
        ensures
            d@ == nanos,
    {
        Duration { nanos: nanos as u128 }
    }

    pub fn from_millis(millis: u64) -> (d: Duration)
        ensures
            d@ == millis * NANOS_PER_MILLI,
    {
        assert(millis * NANOS_PER_MILLI <= u64::MAX * NANOS_PER_MILLI) by (nonlinear_arith)
            requires
                millis <= u64::MAX,
        ;
        Duration { nanos: millis as u128 * NANOS_PER_MILLI as u128 }
    }

    pub fn from_secs(secs: u64) -> (d: Duration)
        ensures
            d@ == secs * NANOS_PER_SEC,
    {
        assert(secs * NANOS_PER_SEC <= u64::MAX * NANOS_PER_SEC) by (nonlinear_arith)
            requires
                secs <= u64::MAX,
        ;
        Duration { nanos: secs as u128 * NANOS_PER_SEC as u128 }
    }

    /// The whole span in nanoseconds.
    pub fn as_nanos(&self) -> (n: u128)
        ensures
            n == self@,
    {
        self.nanos
    }

    pub fn is_zero(&self) -> (b: bool)
        ensures
            b == (self@ == 0),
    {
        self.nanos == 0
    }
}

/// A reading of a monotonic clock, in nanoseconds since the clock's origin.
#[derive(Clone, Copy, Debug, PartialEq, Eq, Structural)]
pub struct Instant {
    nanos: u128,
}

impl View for Instant {
    type V = nat;

    closed spec fn view(&self) -> nat {
        self.nanos as nat
    }
}

/// The reading `instant + dur`, where the clock can represent it.
pub open spec fn instant_add_spec(instant: nat, dur: nat) -> Option<nat> {
    if instant + dur <= MAX_INSTANT_NANOS {
        Some(instant + dur)
    } else {
        None
    }
}

impl Instant {
    /// The reading `nanos` nanoseconds after the origin, where the clock can represent it.
    pub fn from_nanos(nanos: u128) -> (r: Option<Instant>)
        ensures
            r is Some <==> nanos <= MAX_INSTANT_NANOS,
            r matches Some(i) ==> i@ == nanos,
    {
        if nanos <= MAX_INSTANT_NANOS {
            Some(Instant { nanos })
        } else {
            None
        }
    }

    /// The reading `nanos` nanoseconds after the origin; every `u64` count is representable.
    pub fn from_nanos_u64(nanos: u64) -> (i: Instant)
        ensures
            i@ == nanos,
    {
        Instant { nanos: nanos as u128 }
    }

    /// Nanoseconds since the origin.
    pub fn as_nanos(&self) -> (n: u128)
        ensures
            n == self@,
    {
        self.nanos
    }

    /// `self + dur`, or `None` where the clock cannot represent it.
    pub fn checked_add(&self, dur: Duration) -> (r: Option<Instant>)
        ensures
            r matches Some(i) ==> instant_add_spec(self@, dur@) == Some(i@),
            r is None ==> instant_add_spec(self@, dur@) is None,
    {
        match self.nanos.checked_add(dur.as_nanos()) {
            Some(sum) => {
                if sum <= MAX_INSTANT_NANOS {
                    Some(Instant { nanos: sum })
                } else {
                    None
                }
            },
            None => None,
        }
    }

    /// The time elapsed from `earlier` to `self`, or zero where `earlier` is later.
    pub fn saturating_duration_since(&self, earlier: Instant) -> (d: Duration)
        ensures
            d@ == if self@ >= earlier@ { self@ - earlier@ } else { 0 },
    {
        if self.nanos >= earlier.nanos {
            Duration { nanos: self.nanos - earlier.nanos }
        } else {
            Duration { nanos: 0 }
        }
    }

    /// Whether `self` comes strictly before `other`.
    pub fn is_before(&self, other: Instant) -> (b: bool)
        ensures
            b == (self@ < other@),
    {
        self.nanos < other.nanos
    }
}

} // verus!

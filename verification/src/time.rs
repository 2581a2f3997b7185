//! Plain time values: a non-negative span ([`Duration`]) and a point in time
//! measured from the epoch ([`Timestamp`]), both with nanosecond resolution.
//!
//! Each value abstracts to an integer number of nanoseconds (its view), so
//! contracts over these types are exact down to the nanosecond.

use vstd::prelude::*;

verus! {

/// Nanoseconds in one second.
pub const NANOS_PER_SEC: u32 = 1_000_000_000;

/// The largest instant a [`Timestamp`] can hold, in nanoseconds since the
/// epoch: `u64::MAX` whole seconds plus a maximal sub-second part.
pub open spec fn max_instant() -> int {
    u64::MAX as int * NANOS_PER_SEC as int + NANOS_PER_SEC as int - 1
}

/// A non-negative span of elapsed time, in whole seconds plus a sub-second
/// part in nanoseconds. The view is the span as an integer count of
/// nanoseconds.
#[derive(Clone, Copy, Debug, PartialEq, Eq, Structural, PartialOrd, Ord, Hash)]
pub struct Duration {
    secs: u64,
    nanos: u32,
}

impl View for Duration {
    type V = int;

    closed spec fn view(&self) -> int {
        self.secs as int * NANOS_PER_SEC as int + self.nanos as int
    }
}

impl Duration {
    /// Well-formedness: the sub-second part never reaches a full second.
    /// It is the type's invariant, so every `Duration` that executable code
    /// holds satisfies it; `use_type_invariant` recovers it for a caller.
    #[verifier::type_invariant]
    pub closed spec fn wf(self) -> bool {
        self.nanos < NANOS_PER_SEC
    }

    /// A well-formed span is non-negative and never exceeds [`max_instant`].
    pub proof fn lemma_bounds(self)
        requires
            self.wf(),
        ensures
            0 <= self@ <= max_instant(),
    {
    }

    /// A span of `secs` whole seconds plus `nanos` nanoseconds, where `nanos`
    /// is a sub-second part.
    pub fn new(secs: u64, nanos: u32) -> (r: Duration)
        requires
            nanos < NANOS_PER_SEC,
        ensures
            r@ == secs as int * NANOS_PER_SEC as int + nanos as int,
    {
        Duration { secs, nanos }
    }

    /// A span of `secs` whole seconds.
    pub fn from_secs(secs: u64) -> (r: Duration)
        ensures
            r@ == secs as int * NANOS_PER_SEC as int,
    {
        Duration { secs, nanos: 0 }
    }

    /// A span of `millis` milliseconds, honoured exactly.
    pub fn from_millis(millis: u64) -> (r: Duration)
        ensures
            r@ == millis as int * 1_000_000,
    {
        let secs: u64 = millis / 1000;
        let nanos: u32 = ((millis % 1000) as u32) * 1_000_000;
        proof {
            assert(millis == 1000 * (millis as int / 1000) + millis as int % 1000);
        }
        Duration { secs, nanos }
    }

    /// A span of `nanos` nanoseconds, honoured exactly.
    pub fn from_nanos(nanos: u64) -> (r: Duration)
        ensures
            r@ == nanos as int,
    {
        let secs: u64 = nanos / (NANOS_PER_SEC as u64);
        let sub: u32 = (nanos % (NANOS_PER_SEC as u64)) as u32;
        proof {
            assert(nanos == (NANOS_PER_SEC as int) * (nanos as int / (NANOS_PER_SEC as int))
                + nanos as int % (NANOS_PER_SEC as int));
        }
        Duration { secs, nanos: sub }
    }
}

/// An instant, held as a non-negative offset from the epoch: whole seconds
/// plus a sub-second part in nanoseconds. The view is the offset as an
/// integer count of nanoseconds since the epoch. Comparison (derived, by
/// seconds then nanoseconds) agrees with chronological order.
#[derive(Clone, Copy, Debug, PartialEq, Eq, Structural, PartialOrd, Ord, Hash)]
pub struct Timestamp {
    secs: u64,
    nanos: u32,
}

impl View for Timestamp {
    type V = int;

    closed spec fn view(&self) -> int {
        self.secs as int * NANOS_PER_SEC as int + self.nanos as int
    }
}

impl Timestamp {
    /// Well-formedness: the sub-second part never reaches a full second.
    /// It is the type's invariant, so every `Timestamp` that executable code
    /// holds satisfies it; `use_type_invariant` recovers it for a caller.
    #[verifier::type_invariant]
    pub closed spec fn wf(self) -> bool {
        self.nanos < NANOS_PER_SEC
    }

    /// A well-formed instant lies between the epoch and [`max_instant`].
    pub proof fn lemma_bounds(self)
        requires
            self.wf(),
        ensures
            0 <= self@ <= max_instant(),
    {
    }

    /// The instant `secs` whole seconds plus `nanos` nanoseconds after the
    /// epoch, where `nanos` is a sub-second part.
    pub fn new(secs: u64, nanos: u32) -> (r: Timestamp)
        requires
            nanos < NANOS_PER_SEC,
        ensures
            r@ == secs as int * NANOS_PER_SEC as int + nanos as int,
    {
        Timestamp { secs, nanos }
    }

    /// The epoch itself.
    pub fn epoch() -> (r: Timestamp)
        ensures
            r@ == 0,
    {
        Timestamp { secs: 0, nanos: 0 }
    }

    /// The instant `d` after the epoch, as a value: `epoch + d`.
    pub closed spec fn spec_from_duration(d: Duration) -> Timestamp {
        Timestamp { secs: d.secs, nanos: d.nanos }
    }

    /// The instant `d` after the epoch.
    pub fn from_duration(d: Duration) -> (r: Timestamp)
        ensures
            r@ == d@,
            r == Timestamp::spec_from_duration(d),
    {
        proof {
            use_type_invariant(&d);
        }
        Timestamp { secs: d.secs, nanos: d.nanos }
    }

    /// The instant `d` after `self`, exact at nanosecond granularity.
    ///
    /// The sum must fit: a timestamp cannot pass [`max_instant`].
    pub fn add_duration(self, d: Duration) -> (r: Timestamp)
        requires
            self@ + d@ <= max_instant(),
        ensures
            r@ == self@ + d@,
    {
        proof {
            use_type_invariant(&self);
            use_type_invariant(&d);
        }
        let sum_nanos: u32 = self.nanos + d.nanos;
        if sum_nanos >= NANOS_PER_SEC {
            Timestamp { secs: self.secs + d.secs + 1, nanos: sum_nanos - NANOS_PER_SEC }
        } else {
            Timestamp { secs: self.secs + d.secs, nanos: sum_nanos }
        }
    }
}

} // verus!

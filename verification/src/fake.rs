//! A controllable clock for deterministic tests.

use vstd::prelude::*;

use crate::Clock;
use crate::time::Duration;
use crate::time::Timestamp;
use crate::time::max_instant;

verus! {

/// Milliseconds between the epoch and 2015-05-15T00:00:00 UTC, the instant a
/// default-constructed [`FakeClock`] starts at.
pub const DEFAULT_MILLIS_SINCE_EPOCH: u64 = 1_431_648_000_000;

/// A fake clock: holds one timestamp, read by `now`, moved forward by
/// `advance` and replaced by `set`. Time is never validated as monotonic:
/// `set` may move it backward.
///
/// The view is the held instant, in nanoseconds since the epoch. Cloning
/// takes a snapshot: the clone holds the same instant but is an independent
/// instance, and mutating either afterwards leaves the other unchanged.
///
/// Mutation takes `&mut self`: Rust's exclusive borrow is the writer
/// exclusion the contract asks for, so an update can never race a read or
/// be observed half-applied.
#[derive(Debug)]
pub struct FakeClock {
    t: Timestamp,
}

impl View for FakeClock {
    type V = int;

    closed spec fn view(&self) -> int {
        self.t@
    }
}

impl FakeClock {
    /// Create a new `FakeClock` holding the provided instant.
    pub fn new(t: Timestamp) -> (r: Self)
        ensures
            r@ == t@,
    {
        FakeClock { t }
    }

    /// Advance the clock by `duration`: the new value is the old value plus
    /// `duration`, exact at nanosecond granularity.
    ///
    /// The sum must fit: the clock cannot pass [`max_instant`].
    pub fn advance(&mut self, duration: Duration)
        requires
            old(self)@ + duration@ <= max_instant(),
        ensures
            final(self)@ == old(self)@ + duration@,
    {
        self.t = self.t.add_duration(duration);
    }

    /// Replace the held instant with `value`, which may lie before or after
    /// the current one: time may move backward.
    pub fn set(&mut self, value: Timestamp)
        ensures
            final(self)@ == value@,
    {
        self.t = value;
    }
}

impl Clock for FakeClock {
    /// Returns the currently held instant.
    fn now(&self) -> (r: Timestamp)
        ensures
            r@ == self@,
    {
        self.t
    }
}

impl Clone for FakeClock {
    /// A snapshot of the clock: a new, independent instance holding the
    /// current instant.
    fn clone(&self) -> (r: Self)
        ensures
            r@ == self@,
    {
        FakeClock { t: self.t }
    }
}

/// A `FakeClock` starting at the canonical reference instant,
/// 2015-05-15T00:00:00 UTC.
impl Default for FakeClock {
    fn default() -> (r: Self)
        ensures
            r@ == DEFAULT_MILLIS_SINCE_EPOCH as int * 1_000_000,
    {
        FakeClock::from(Duration::from_millis(DEFAULT_MILLIS_SINCE_EPOCH))
    }
}

/// A `FakeClock` starting at the given instant.
impl From<Timestamp> for FakeClock {
    fn from(value: Timestamp) -> (r: Self)
        ensures
            r@ == value@,
    {
        FakeClock { t: value }
    }
}

impl vstd::std_specs::convert::FromSpecImpl<Timestamp> for FakeClock {
    open spec fn obeys_from_spec() -> bool {
        true
    }

    closed spec fn from_spec(value: Timestamp) -> FakeClock {
        FakeClock { t: value }
    }
}

/// A `FakeClock` starting at the given offset from the epoch:
/// `epoch + value`.
impl From<Duration> for FakeClock {
    fn from(value: Duration) -> (r: Self)
        ensures
            r@ == value@,
    {
        FakeClock { t: Timestamp::from_duration(value) }
    }
}

impl vstd::std_specs::convert::FromSpecImpl<Duration> for FakeClock {
    open spec fn obeys_from_spec() -> bool {
        true
    }

    closed spec fn from_spec(value: Duration) -> FakeClock {
        FakeClock { t: Timestamp::spec_from_duration(value) }
    }
}

/// Where a run of `advance` calls leaves a clock that starts at `start`:
/// each call adds its delta to the value left by the one before, exactly as
/// `advance` ensures. Instants and deltas are in nanoseconds.
pub open spec fn after_advances(start: int, deltas: Seq<int>) -> int
    decreases deltas.len(),
{
    if deltas.len() == 0 {
        start
    } else {
        after_advances(start + deltas[0], deltas.drop_first())
    }
}

/// The total of a run of deltas, in nanoseconds.
pub open spec fn total_of(deltas: Seq<int>) -> int
    decreases deltas.len(),
{
    if deltas.len() == 0 {
        0
    } else {
        deltas[0] + total_of(deltas.drop_first())
    }
}

/// No update is lost: a run of `advance` calls, whatever deltas it carries,
/// leaves the clock at its starting value plus the total of all the deltas.
pub proof fn lemma_advances_accumulate(start: int, deltas: Seq<int>)
    ensures
        after_advances(start, deltas) == start + total_of(deltas),
    decreases deltas.len(),
{
    if deltas.len() > 0 {
        lemma_advances_accumulate(start + deltas[0], deltas.drop_first());
    }
}

/// No update is lost under a uniform load: `n` `advance` calls, each by the
/// same delta `d`, leave the clock at its starting value plus `n * d`.
pub proof fn lemma_uniform_advances_accumulate(start: int, d: int, n: nat)
    ensures
        after_advances(start, Seq::new(n, |i: int| d)) == start + n * d,
    decreases n,
{
    let deltas = Seq::new(n, |i: int| d);
    if n == 0 {
        assert(after_advances(start, deltas) == start);
    } else {
        assert(deltas.drop_first() =~= Seq::new((n - 1) as nat, |i: int| d));
        lemma_uniform_advances_accumulate(start + d, d, (n - 1) as nat);
        assert(start + d + (n - 1) * d == start + n * d) by (nonlinear_arith);
    }
}

} // verus!

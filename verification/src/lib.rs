//! An injectable "now" provider.
//!
//! One single-method capability, [`Clock`], with two implementations: a
//! passthrough to the platform wall clock ([`SystemClock`]) and a fully
//! controllable fake for deterministic tests ([`FakeClock`]). There is no
//! scheduling, no timers and no monotonicity enforcement: a fake clock can be
//! moved backward with `set`.

use vstd::prelude::*;

pub use fake::FakeClock;
pub use sys::SystemClock;
pub use time::Duration;
pub use time::Timestamp;

mod fake;
mod sys;
mod time;

verus! {

/// A source of "the current time".
///
/// Implementors never fail: `now` always returns a timestamp. Callers that
/// need the time depend on this capability rather than on a concrete clock,
/// so a fake can be substituted in tests.
pub trait Clock: Send + Sync {
    /// Returns the time corresponding to "now".
    fn now(&self) -> Timestamp;
}

} // verus!

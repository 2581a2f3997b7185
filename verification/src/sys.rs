//! The wall-clock implementation of the capability.

use vstd::prelude::*;

use crate::Clock;
use crate::time::NANOS_PER_SEC;
use crate::time::Timestamp;

verus! {

/// The platform wall clock: stateless, freely copyable; `now` reads the
/// current time. Readings carry whatever resolution the platform provides;
/// an instant before the epoch is reported as the epoch.
#[derive(Clone, Copy, Debug)]
pub struct SystemClock;

impl Default for SystemClock {
    fn default() -> (r: Self)
        ensures
            r == (SystemClock {}),
    {
        SystemClock {}
    }
}

#[verifier::external_type_specification]
#[verifier::external_body]
pub struct ExSystemTime(std::time::SystemTime);

/// Relies on `std::time::SystemTime::now`: reads the platform wall clock. The
/// reading depends on the moment of the call, so nothing is promised of it.
#[verifier::external_body]
fn read_wall_clock() -> std::time::SystemTime {
    std::time::SystemTime::now()
}

/// Relies on `std::time::SystemTime::duration_since`: `Ok` holds the span
/// from the given earlier instant, whose sub-second part is below one
/// billion nanoseconds; `Err` when `t` lies before the epoch. The span is
/// handed back as whole seconds plus the sub-second nanoseconds.
#[verifier::external_body]
fn wall_clock_since_epoch(t: std::time::SystemTime) -> (r: Option<(u64, u32)>)
    ensures
        r matches Some(p) ==> p.1 < NANOS_PER_SEC,
{
    match t.duration_since(std::time::UNIX_EPOCH) {
        Ok(d) => Some((d.as_secs(), d.subsec_nanos())),
        Err(_) => None,
    }
}

impl Clock for SystemClock {
    /// Returns the platform wall-clock reading at call time.
    fn now(&self) -> Timestamp {
        let t = read_wall_clock();
        match wall_clock_since_epoch(t) {
            Some(p) => Timestamp::new(p.0, p.1),
            None => Timestamp::epoch(),
        }
    }
}

} // verus!

//! Absolute time as the bucket sees it: instants, and the whole seconds
//! between two of them.

use vstd::prelude::*;

verus! {

/// An absolute instant: `secs` seconds and `nanos` nanoseconds after
/// 1970-01-01 00:00:00 UTC. Every pair of values is an instant; its view is
/// the number of nanoseconds since that moment.
#[derive(Debug, Clone, Copy, PartialEq, Eq, Structural)]
pub struct Timestamp {
    pub secs: i64,
    pub nanos: u32,
}

impl View for Timestamp {
    type V = int;

    open spec fn view(&self) -> int {
        self.secs * 1_000_000_000 + self.nanos
    }
}

/// The whole seconds that lie between `since` and `now`: the difference
/// rounded down, and zero when `now` is not later than `since`.
pub open spec fn elapsed_secs(since: Timestamp, now: Timestamp) -> nat {
    if now@ <= since@ {
        0
    } else {
        ((now@ - since@) / 1_000_000_000) as nat
    }
}

/// A number of seconds as a `u32` can hold it: anything larger reads as
/// `u32::MAX`.
pub open spec fn clamp_secs(secs: nat) -> nat {
    if secs > u32::MAX {
        u32::MAX as nat
    } else {
        secs
    }
}

impl Timestamp {
    /// The instant `secs` seconds and `nanos` nanoseconds after the epoch.
    pub fn new(secs: i64, nanos: u32) -> (t: Timestamp)
        ensures
            t == (Timestamp { secs, nanos }),
    {
        Timestamp { secs, nanos }
    }
}

/// The whole seconds elapsed from `since` to `now`, never negative and
/// saturating at `u32::MAX`.
pub fn duration_secs(since: Timestamp, now: Timestamp) -> (secs: u32)
    ensures
        secs as nat == clamp_secs(elapsed_secs(since, now)),
{
    let start: i128 = (since.secs as i128) * 1_000_000_000 + (since.nanos as i128);
    let end: i128 = (now.secs as i128) * 1_000_000_000 + (now.nanos as i128);
    if end <= start {
        0
    } else {
        let whole: i128 = (end - start) / 1_000_000_000;
        if whole > u32::MAX as i128 {
            u32::MAX
        } else {
            whole as u32
        }
    }
}

/// Reads the wall clock through `chrono::Utc::now` and hands the instant over
/// as the seconds and nanoseconds that `DateTime::timestamp` and
/// `DateTime::timestamp_subsec_nanos` report for it. Nothing is claimed of
/// the instant: two readings may even go backwards. `chrono` panics where the
/// system clock stands before 1970 or beyond the dates it can represent.
#[verifier::external_body]
pub(crate) fn now() -> Timestamp {
    let instant = chrono::Utc::now();
    Timestamp { secs: instant.timestamp(), nanos: instant.timestamp_subsec_nanos() }
}

} // verus!

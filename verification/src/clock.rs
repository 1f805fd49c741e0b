//! The time of day.

use vstd::prelude::*;

verus! {

/// `SystemTime::now`, as the time since the Unix epoch in whole seconds and
/// the nanoseconds beyond them; the epoch itself for a clock set before it.
/// Only the range of the nanoseconds is known.
#[verifier::external_body]
fn system_time() -> (r: (u64, u32))
    ensures
        r.1 < 1_000_000_000,
{
    let since_epoch = std::time::SystemTime::now().duration_since(
        std::time::UNIX_EPOCH,
    ).unwrap_or_default();
    (since_epoch.as_secs(), since_epoch.subsec_nanos())
}

/// A point in time, counted from the Unix epoch.
#[derive(Debug, Clone, Copy, PartialEq, Eq, Structural)]
pub struct Timestamp {
    /// Whole seconds since the epoch.
    pub secs: u64,
    /// Nanoseconds beyond the whole seconds.
    pub nanos: u32,
}

impl Timestamp {
    /// Whether this point in time comes after `other`.
    pub open spec fn later_than(self, other: Timestamp) -> bool {
        self.secs > other.secs || (self.secs == other.secs && self.nanos > other.nanos)
    }

    /// The current time.
    pub fn now() -> (r: Timestamp)
        ensures
            r.nanos < 1_000_000_000,
    {
        let (secs, nanos) = system_time();
        Timestamp { secs, nanos }
    }

    /// Whether this point in time comes after `other`.
    pub fn is_later_than(&self, other: &Timestamp) -> (r: bool)
        ensures
            r == self.later_than(*other),
    {
        self.secs > other.secs || (self.secs == other.secs && self.nanos > other.nanos)
    }
}

} // verus!

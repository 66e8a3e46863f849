use vstd::prelude::*;

verus! {

/// A point in time in UTC: whole seconds since the Unix epoch and the
/// nanoseconds within that second (above 999_999_999 only during a leap second).
#[derive(Clone, Copy, Debug, PartialEq, Eq, Structural)]
pub struct Timestamp {
    pub secs: i64,
    pub nanos: u32,
}

/// `a` is strictly earlier than `b`.
pub open spec fn ts_before(a: Timestamp, b: Timestamp) -> bool {
    a.secs < b.secs || (a.secs == b.secs && a.nanos < b.nanos)
}

/// Reads the system clock through `chrono::Utc::now`, taking its Unix seconds and
/// sub-second nanoseconds. The value depends on the clock; only chrono's documented
/// bound on the nanoseconds (below 2_000_000_000) is claimed.
#[verifier::external_body]
fn clock_now() -> (t: (i64, u32))
    ensures
        t.1 < 2_000_000_000,
{
    let now = chrono::Utc::now();
    (now.timestamp(), now.timestamp_subsec_nanos())
}

impl Timestamp {
    /// The Unix epoch, 1970-01-01T00:00:00Z.
    pub fn epoch() -> (t: Self)
        ensures
            t.secs == 0 && t.nanos == 0,
    {
        Timestamp { secs: 0, nanos: 0 }
    }

    /// The current time.
    pub fn now() -> (t: Self)
        ensures
            t.nanos < 2_000_000_000,
    {
        let (secs, nanos) = clock_now();
        Timestamp { secs, nanos }
    }

    /// Whether `self` lies strictly before `other`.
    pub fn is_before(&self, other: &Timestamp) -> (b: bool)
        ensures
            b == ts_before(*self, *other),
    {
        self.secs < other.secs || (self.secs == other.secs && self.nanos < other.nanos)
    }
}

} // verus!

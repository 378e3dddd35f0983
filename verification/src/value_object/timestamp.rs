use vstd::prelude::*;

verus! {

/// An instant in UTC, as a `chrono::DateTime<Utc>` holds it: the whole seconds
/// since the Unix epoch that are not leap seconds (`timestamp`), and the
/// nanoseconds into that second (`timestamp_subsec_nanos`), which reach
/// `1_000_000_000` and beyond only while a leap second lasts.
#[derive(Clone, Copy, Debug, PartialEq, Eq, Structural)]
pub struct Timestamp {
    pub secs: i64,
    pub nanos: u32,
}

/// The nanoseconds in one second.
pub const NANOS_PER_SEC: u32 = 1_000_000_000u32;

/// Whether `a` is later than `b`: instants are ordered by their seconds, then
/// by their nanoseconds, as `DateTime` compares them.
pub open spec fn later_than(a: (int, int), b: Timestamp) -> bool {
    a.0 > b.secs || (a.0 == b.secs && a.1 > b.nanos)
}

/// `t` moved back by `secs` whole seconds, as `DateTime - TimeDelta` does it:
/// an instant inside a leap second first becomes the start of the next second
/// plus the excess over one second.
pub open spec fn moved_back(t: Timestamp, secs: int) -> (int, int) {
    if t.nanos >= NANOS_PER_SEC {
        (t.secs + 1 - secs, t.nanos - NANOS_PER_SEC)
    } else {
        (t.secs - secs, t.nanos as int)
    }
}

} // verus!

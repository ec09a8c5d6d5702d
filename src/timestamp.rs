use vstd::prelude::*;

verus! {

/// Number of nanoseconds in one second.
pub const NANOS_PER_SEC: u32 = 1_000_000_000;

/// Number of nanoseconds in one millisecond.
pub const NANOS_PER_MS: u32 = 1_000_000;

/// A file modification time: whole seconds since the Unix epoch plus a
/// sub-second part in nanoseconds.
#[derive(Clone, Copy, Debug, PartialEq, Eq, Structural)]
pub struct Timestamp {
    pub secs: i64,
    pub nanos: u32,
}

impl Timestamp {
    /// The sub-second part is a proper fraction of a second.
    pub open spec fn wf(self) -> bool {
        self.nanos < NANOS_PER_SEC
    }

    /// The moment in nanoseconds since the epoch (high precision view).
    pub open spec fn total_nanos(self) -> int {
        self.secs as int * NANOS_PER_SEC as int + self.nanos as int
    }

    /// The moment truncated to milliseconds (low precision view).
    pub open spec fn ms(self) -> int {
        self.secs as int * 1000 + self.nanos as int / NANOS_PER_MS as int
    }

    /// Strictly earlier, at nanosecond precision.
    pub open spec fn spec_before(self, other: Timestamp) -> bool {
        self.secs < other.secs || (self.secs == other.secs && self.nanos < other.nanos)
    }

    pub fn new(secs: i64, nanos: u32) -> (r: Timestamp)
        requires
            nanos < NANOS_PER_SEC,
        ensures
            r.secs == secs,
            r.nanos == nanos,
            r.wf(),
    {
        Timestamp { secs, nanos }
    }

    /// The moment truncated to millisecond precision.
    pub fn to_ms(&self) -> (r: i128)
        ensures
            r == self.ms(),
    {
        self.secs as i128 * 1000 + (self.nanos / NANOS_PER_MS) as i128
    }

    /// Strictly earlier than `other` at nanosecond precision.
    pub fn before(&self, other: &Timestamp) -> (r: bool)
        ensures
            r == self.spec_before(*other),
    {
        self.secs < other.secs || (self.secs == other.secs && self.nanos < other.nanos)
    }

    /// Equal once both sides are truncated to milliseconds.
    pub fn matches_low_precision(&self, other: &Timestamp) -> (r: bool)
        ensures
            r == (self.ms() == other.ms()),
    {
        self.to_ms() == other.to_ms()
    }
}

/// Nanosecond order agrees with the order of the total nanosecond count.
pub proof fn lemma_before_is_nanos_order(a: Timestamp, b: Timestamp)
    requires
        a.wf(),
        b.wf(),
    ensures
        a.spec_before(b) <==> a.total_nanos() < b.total_nanos(),
{
    if a.secs < b.secs {
        assert(a.secs as int * 1_000_000_000 + 1_000_000_000 <= b.secs as int * 1_000_000_000)
            by (nonlinear_arith)
            requires a.secs < b.secs;
    } else if a.secs > b.secs {
        assert(b.secs as int * 1_000_000_000 + 1_000_000_000 <= a.secs as int * 1_000_000_000)
            by (nonlinear_arith)
            requires b.secs < a.secs;
    }
}

/// The modification time of a path that may not exist.
#[derive(Clone, Copy, Debug, PartialEq, Eq, Structural)]
pub enum MtimeResult {
    NonExistant,
    Modified(Timestamp),
}

} // verus!

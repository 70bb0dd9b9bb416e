use vstd::prelude::*;

verus! {

/// Default span of time, in milliseconds, that the history keeps between its
/// oldest and its newest sample.
pub const DEFAULT_RETENTION_MS: u64 = 60_000;

/// One timestamped metrics snapshot, reduced to what the controller reads.
#[derive(Clone, Copy, Debug, PartialEq, Eq, Structural)]
pub struct Sample {
    /// Instant of capture, in milliseconds on the producer's clock.
    pub timestamp_ms: u64,
    /// Number of top-level metric entries; bounds the table cursor.
    pub root_count: usize,
}

impl Sample {
    pub fn new(timestamp_ms: u64, root_count: usize) -> (r: Sample)
        ensures
            r.timestamp_ms == timestamp_ms,
            r.root_count == root_count,
    {
        Sample { timestamp_ms, root_count }
    }
}

/// Age of a sample taken at `then`, seen from `now`; a sample from the future
/// has age zero.
pub open spec fn age(now: u64, then: u64) -> nat {
    if then <= now {
        (now - then) as nat
    } else {
        0
    }
}

} // verus!

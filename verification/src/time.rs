//! Instants and intervals as whole seconds and nanoseconds.
use vstd::prelude::*;

verus! {

/// Nanoseconds in one second.
pub const NANOS_PER_SEC: u32 = 1_000_000_000;

/// A wall-clock instant, counted from the Unix epoch.
#[derive(Clone, Copy, Debug, PartialEq, Eq, Structural)]
pub struct Timestamp {
    pub secs_since_epoch: u64,
    pub nanos_since_epoch: u32,
}

/// A length of time.
#[derive(Clone, Copy, Debug, PartialEq, Eq, Structural)]
pub struct Elapsed {
    pub secs: u64,
    pub nanos: u32,
}

impl Timestamp {
    /// The fraction of a second is below one second.
    pub open spec fn wf(self) -> bool {
        self.nanos_since_epoch < NANOS_PER_SEC
    }

    /// The instant `secs` seconds after the epoch.
    pub fn from_secs(secs: u64) -> (t: Timestamp)
        ensures
            t == (Timestamp { secs_since_epoch: secs, nanos_since_epoch: 0 }),
            t.wf(),
    {
        Timestamp { secs_since_epoch: secs, nanos_since_epoch: 0 }
    }
}

impl Elapsed {
    /// The fraction of a second is below one second.
    pub open spec fn wf(self) -> bool {
        self.nanos < NANOS_PER_SEC
    }

    /// An interval of `secs` whole seconds.
    pub fn from_secs(secs: u64) -> (d: Elapsed)
        ensures
            d == (Elapsed { secs, nanos: 0 }),
            d.wf(),
    {
        Elapsed { secs, nanos: 0 }
    }
}

/// The whole seconds of `secs` seconds and `nanos` nanoseconds, once every
/// full second among the nanoseconds has been carried over.
pub open spec fn carried_secs(secs: u64, nanos: u32) -> int {
    secs as int + (nanos / NANOS_PER_SEC) as int
}

/// The nanoseconds that are left after the carry.
pub open spec fn carried_nanos(nanos: u32) -> int {
    (nanos % NANOS_PER_SEC) as int
}

/// Carries full seconds out of `nanos` into `secs`.
///
/// Returns `None` exactly when the seconds no longer fit in 64 bits.
pub fn carry(secs: u64, nanos: u32) -> (r: Option<(u64, u32)>)
    ensures
        carried_secs(secs, nanos) <= u64::MAX ==> r == Some(
            (carried_secs(secs, nanos) as u64, carried_nanos(nanos) as u32),
        ),
        carried_secs(secs, nanos) > u64::MAX ==> r is None,
        r matches Some((_, n)) ==> n < NANOS_PER_SEC,
{
    let extra: u32 = nanos / NANOS_PER_SEC;
    let rest: u32 = nanos % NANOS_PER_SEC;
    if secs > u64::MAX - (extra as u64) {
        None
    } else {
        Some((secs + (extra as u64), rest))
    }
}

} // verus!

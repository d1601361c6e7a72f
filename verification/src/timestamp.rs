//! Points in time, exact to the nanosecond, and the system clock.
//!
//! A point in time is a plain value, so that what depends on time can be
//! stated, proved and tried for any time, and only reading the clock is
//! left to the system.

use std::time::SystemTime;
use std::time::UNIX_EPOCH;
use vstd::prelude::*;

verus! {

/// The number of nanoseconds in a second.
pub const NANOS_PER_SEC: u64 = 1_000_000_000;

/// A point in time, given by its distance from the start of 1970 (UTC) and
/// the side on which it lies.
#[derive(Clone, Copy, Debug, PartialEq, Eq, Structural)]
pub struct Timestamp {
    /// The point lies before the start of 1970.
    pub before_epoch: bool,
    /// Whole seconds of the distance.
    pub secs: u64,
    /// Nanoseconds of the distance, on top of the whole seconds.
    pub nanos: u32,
}

impl Timestamp {
    /// The distance from the start of 1970, in nanoseconds.
    pub open spec fn distance(self) -> int {
        self.secs as int * NANOS_PER_SEC as int + self.nanos as int
    }

    /// The point as a number of nanoseconds since the start of 1970, negative
    /// for a point before it.
    pub open spec fn nanos_since_epoch(self) -> int {
        if self.before_epoch {
            -self.distance()
        } else {
            self.distance()
        }
    }

    /// The time that has passed between `earlier` and `self`, in
    /// nanoseconds, or `None` where `earlier` is in fact the later of the two.
    pub open spec fn elapsed_since(self, earlier: Timestamp) -> Option<int> {
        if self.nanos_since_epoch() < earlier.nanos_since_epoch() {
            None
        } else {
            Some(self.nanos_since_epoch() - earlier.nanos_since_epoch())
        }
    }

    /// The point `secs` seconds and `nanos` nanoseconds after the start of 1970.
    pub fn new(secs: u64, nanos: u32) -> (t: Timestamp)
        ensures
            t == (Timestamp { before_epoch: false, secs, nanos }),
    {
        Timestamp { before_epoch: false, secs, nanos }
    }

    /// The point `secs` whole seconds after the start of 1970.
    pub fn from_secs(secs: u64) -> (t: Timestamp)
        ensures
            t == (Timestamp { before_epoch: false, secs, nanos: 0 }),
            t.nanos_since_epoch() == secs * NANOS_PER_SEC,
    {
        Timestamp { before_epoch: false, secs, nanos: 0 }
    }

    /// The nanoseconds stay below one second, so that the seconds of the
    /// distance are those of `secs`.
    pub open spec fn is_normal(self) -> bool {
        self.nanos < NANOS_PER_SEC
    }

    /// What the system clock shows at the moment of the call. Which point
    /// that is, the clock decides; it comes with its nanoseconds below one
    /// second.
    pub fn now() -> (t: Timestamp)
        ensures
            t.is_normal(),
    {
        read_clock()
    }

    fn magnitude(&self) -> (d: u128)
        ensures
            d == self.distance(),
    {
        let secs: u128 = self.secs as u128;
        let nanos: u128 = self.nanos as u128;
        secs * 1_000_000_000u128 + nanos
    }

    /// Tells whether more than `secs` seconds have passed between `earlier`
    /// and `self`, to the nanosecond. It is `false` where `earlier` is the
    /// later of the two.
    pub fn more_than_secs_after(&self, earlier: &Timestamp, secs: u64) -> (b: bool)
        ensures
            b == match self.elapsed_since(*earlier) {
                Some(elapsed) => elapsed > secs * NANOS_PER_SEC,
                None => false,
            },
    {
        let later: u128 = self.magnitude();
        let start: u128 = earlier.magnitude();
        let span: u128 = secs as u128 * 1_000_000_000u128;
        // The distance between the two points, where `self` is not the earlier one.
        let elapsed: Option<u128> = if self.before_epoch {
            if earlier.before_epoch && start >= later {
                Some(start - later)
            } else if !earlier.before_epoch && later == 0 && start == 0 {
                Some(0)
            } else {
                None
            }
        } else if earlier.before_epoch {
            Some(later + start)
        } else if later >= start {
            Some(later - start)
        } else {
            None
        };
        match elapsed {
            Some(d) => d > span,
            None => false,
        }
    }

    /// Tells whether `self` lies before `earlier`.
    pub fn is_before(&self, earlier: &Timestamp) -> (b: bool)
        ensures
            b == (self.nanos_since_epoch() < earlier.nanos_since_epoch()),
            b == (self.elapsed_since(*earlier) is None),
    {
        let later: u128 = self.magnitude();
        let start: u128 = earlier.magnitude();
        if self.before_epoch {
            if earlier.before_epoch {
                later > start
            } else {
                later > 0 || start > 0
            }
        } else if earlier.before_epoch {
            false
        } else {
            later < start
        }
    }
}

/// Reads the system clock with `SystemTime::now` and measures it against
/// `UNIX_EPOCH` with `SystemTime::duration_since`. The distance comes back as
/// the seconds and nanoseconds of the `Duration`, on either side of that
/// point. Which point the clock shows is not claimed. What is claimed is
/// that the nanoseconds are below one billion, as the standard library
/// documents of `Duration::subsec_nanos`.
#[verifier::external_body]
fn read_clock() -> (t: Timestamp)
    ensures
        t.nanos < NANOS_PER_SEC,
{
    match SystemTime::now().duration_since(UNIX_EPOCH) {
        Ok(d) => Timestamp { before_epoch: false, secs: d.as_secs(), nanos: d.subsec_nanos() },
        Err(e) => Timestamp {
            before_epoch: true,
            secs: e.duration().as_secs(),
            nanos: e.duration().subsec_nanos(),
        },
    }
}

} // verus!

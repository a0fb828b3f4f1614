//! Packet timestamps: a second count with a sub-second microsecond part,
//! ordered lexicographically.

use core::cmp::Ordering;
use vstd::prelude::*;

verus! {

/// Timestamp of a captured packet: seconds since an epoch plus microseconds.
#[derive(Clone, Copy, Debug, PartialEq, Eq, Structural, Hash, Default)]
pub struct Timestamp {
    pub secs: i64,
    pub usecs: i64,
}

/// Three-way comparison of timestamps: by seconds, then by microseconds.
pub open spec fn spec_cmp_timestamp(a: Timestamp, b: Timestamp) -> Ordering {
    if a.secs < b.secs {
        Ordering::Less
    } else if a.secs > b.secs {
        Ordering::Greater
    } else if a.usecs < b.usecs {
        Ordering::Less
    } else if a.usecs > b.usecs {
        Ordering::Greater
    } else {
        Ordering::Equal
    }
}

impl Timestamp {
    pub fn new(secs: i64, usecs: i64) -> (t: Timestamp)
        ensures
            t.secs == secs,
            t.usecs == usecs,
    {
        Timestamp { secs, usecs }
    }

    /// Three-way comparison agreeing with [`spec_cmp_timestamp`].
    pub fn compare(&self, other: &Timestamp) -> (o: Ordering)
        ensures
            o == spec_cmp_timestamp(*self, *other),
    {
        if self.secs < other.secs {
            Ordering::Less
        } else if self.secs > other.secs {
            Ordering::Greater
        } else if self.usecs < other.usecs {
            Ordering::Less
        } else if self.usecs > other.usecs {
            Ordering::Greater
        } else {
            Ordering::Equal
        }
    }
}

} // verus!

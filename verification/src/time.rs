//! Points in time and lengths of time, both counted in whole nanoseconds.
use vstd::prelude::*;

verus! {

/// A point in time: nanoseconds since the Unix epoch.
#[derive(Clone, Copy, Debug, PartialEq, Eq, Structural)]
pub struct Timestamp {
    pub nanos: u128,
}

/// A length of time in nanoseconds.
#[derive(Clone, Copy, Debug, PartialEq, Eq, Structural)]
pub struct Duration {
    pub nanos: u128,
}

/// The nanoseconds from `earlier` to `later`, zero where `later` comes first.
pub open spec fn elapsed_between(earlier: Timestamp, later: Timestamp) -> Duration {
    if later.nanos >= earlier.nanos {
        Duration { nanos: (later.nanos - earlier.nanos) as u128 }
    } else {
        Duration { nanos: 0 }
    }
}

/// A duration's nanoseconds as a histogram sample: clamped to the largest `u64`.
pub open spec fn clamped_nanos(d: Duration) -> u64 {
    if d.nanos <= u64::MAX {
        d.nanos as u64
    } else {
        u64::MAX
    }
}

/// How long an entity lived: defined once it has both been created and closed,
/// and only where it was not closed before it was created.
pub open spec fn lifetime(created_at: Option<Timestamp>, closed_at: Option<Timestamp>) -> Option<
    Duration,
> {
    match (created_at, closed_at) {
        (Some(start), Some(end)) => if end.nanos >= start.nanos {
            Some(Duration { nanos: (end.nanos - start.nanos) as u128 })
        } else {
            None
        },
        _ => None,
    }
}

impl Timestamp {
    pub fn from_nanos(nanos: u128) -> (t: Timestamp)
        ensures
            t.nanos == nanos,
    {
        Timestamp { nanos }
    }

    /// The time from `earlier` to `self`, saturating at zero.
    pub fn saturating_duration_since(&self, earlier: Timestamp) -> (d: Duration)
        ensures
            d == elapsed_between(earlier, *self),
    {
        if self.nanos >= earlier.nanos {
            Duration { nanos: self.nanos - earlier.nanos }
        } else {
            Duration { nanos: 0 }
        }
    }

    /// The time from `earlier` to `self`, or `None` where `self` comes first.
    pub fn checked_duration_since(&self, earlier: Timestamp) -> (d: Option<Duration>)
        ensures
            d == if self.nanos >= earlier.nanos {
                Some(Duration { nanos: (self.nanos - earlier.nanos) as u128 })
            } else {
                None
            },
    {
        if self.nanos >= earlier.nanos {
            Some(Duration { nanos: self.nanos - earlier.nanos })
        } else {
            None
        }
    }
}

impl Duration {
    pub fn from_nanos(nanos: u128) -> (d: Duration)
        ensures
            d.nanos == nanos,
    {
        Duration { nanos }
    }

    pub fn zero() -> (d: Duration)
        ensures
            d.nanos == 0,
    {
        Duration { nanos: 0 }
    }

    /// The sum of two durations, or `None` where it does not fit.
    pub fn checked_add(&self, other: Duration) -> (sum: Option<Duration>)
        ensures
            sum == if self.nanos + other.nanos <= u128::MAX {
                Some(Duration { nanos: (self.nanos + other.nanos) as u128 })
            } else {
                None
            },
    {
        if other.nanos <= u128::MAX - self.nanos {
            Some(Duration { nanos: self.nanos + other.nanos })
        } else {
            None
        }
    }

    /// The duration as a histogram sample.
    pub fn as_sample(&self) -> (sample: u64)
        ensures
            sample == clamped_nanos(*self),
    {
        if self.nanos <= 0xffff_ffff_ffff_ffffu128 {
            #[verifier::truncate]
            (self.nanos as u64)
        } else {
            u64::MAX
        }
    }
}

/// The total time an entity was alive, for its published stats.
pub fn total_time(created_at: Option<&Timestamp>, closed_at: Option<&Timestamp>) -> (total: Option<
    Duration,
>)
    ensures
        total == lifetime(
            match created_at {
                Some(t) => Some(*t),
                None => None,
            },
            match closed_at {
                Some(t) => Some(*t),
                None => None,
            },
        ),
{
    match closed_at {
        Some(end) => match created_at {
            Some(start) => end.checked_duration_since(*start),
            None => None,
        },
        None => None,
    }
}

} // verus!

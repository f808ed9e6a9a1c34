//! A monotonic clock that is read in whole nanoseconds.

use std::time::{Duration, Instant};
use vstd::prelude::*;

verus! {

/// A reading of a [`Clock`]: the nanoseconds since the clock was started.
/// A negative value names a moment before the start.
pub type Timestamp = i128;

/// `std::time::Instant`, a reading of the monotonic clock of the machine.
/// Nothing inside it is visible here.
#[verifier::external_type_specification]
#[verifier::external_body]
pub struct ExInstant(Instant);

/// `Instant::now` reads the monotonic clock of the machine. The reading changes
/// from call to call, so nothing is claimed of it.
pub assume_specification[ Instant::now ]() -> (now: Instant);

/// `Instant::saturating_duration_since` gives the time from `earlier` to `later`,
/// or zero when `earlier` is the later of the two. The span is opaque here, so
/// nothing is claimed of it.
pub assume_specification[ Instant::saturating_duration_since ](
    later: &Instant,
    earlier: Instant,
) -> (span: Duration);

/// `Duration::as_nanos` gives the whole nanoseconds of a span. The span is
/// opaque here, so nothing is claimed of the number.
pub assume_specification[ Duration::as_nanos ](span: &Duration) -> (nanos: u128);

/// `t` moved by `by` nanoseconds, held inside the range of a [`Timestamp`].
pub open spec fn shifted(t: int, by: int) -> int {
    if t + by > i128::MAX {
        i128::MAX as int
    } else if t + by < i128::MIN {
        i128::MIN as int
    } else {
        t + by
    }
}

/// Moves a timestamp by `by` nanoseconds, stopping at either end of the range.
pub fn shift(t: Timestamp, by: i128) -> (moved: Timestamp)
    ensures
        moved == shifted(t as int, by as int),
{
    match t.checked_add(by) {
        Some(moved) => moved,
        None => if by > 0 {
            i128::MAX
        } else {
            i128::MIN
        },
    }
}

/// A monotonic clock. Its readings count from the moment it was started.
pub struct Clock {
    epoch: Instant,
}

impl Clock {
    /// Starts a clock at the present moment.
    pub fn start() -> Clock {
        Clock { epoch: Instant::now() }
    }

    /// Reads the clock. Readings are never negative; one that would not fit a
    /// [`Timestamp`] is given as the largest timestamp.
    pub fn now(&self) -> (now: Timestamp)
        ensures
            0 <= now,
    {
        let nanos: u128 = Instant::now().saturating_duration_since(self.epoch).as_nanos();
        if nanos > i128::MAX as u128 {
            i128::MAX
        } else {
            nanos as i128
        }
    }
}

} // verus!

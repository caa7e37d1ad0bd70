//! Inclusive-exclusive timestamp bounds of the rows of a data file.

use vstd::prelude::*;

verus! {

/// The `[min, max)` timestamp bounds of a file: `inclusive_start` is the
/// smallest timestamp a row may carry, `exclusive_end` the first timestamp
/// above them all. A range is well formed when the start does not exceed
/// the end.
#[derive(Debug, Clone, Copy, PartialEq, Eq, Structural)]
pub struct TimeRange {
    pub inclusive_start: i64,
    pub exclusive_end: i64,
}

impl TimeRange {
    /// A range is well formed when it is not inverted.
    pub open spec fn wf(self) -> bool {
        self.inclusive_start <= self.exclusive_end
    }

    /// Builds the range `[inclusive_start, exclusive_end)`; an inverted
    /// pair of bounds is rejected.
    pub fn new(inclusive_start: i64, exclusive_end: i64) -> (r: Option<TimeRange>)
        ensures
            inclusive_start <= exclusive_end ==> r == Some(
                TimeRange { inclusive_start, exclusive_end },
            ),
            inclusive_start > exclusive_end ==> r is None,
    {
        if inclusive_start <= exclusive_end {
            Some(TimeRange { inclusive_start, exclusive_end })
        } else {
            None
        }
    }

    /// The smallest timestamp a row of the file may carry.
    pub fn inclusive_start(&self) -> (r: i64)
        ensures
            r == self.inclusive_start,
    {
        self.inclusive_start
    }

    /// The first timestamp above every row of the file.
    pub fn exclusive_end(&self) -> (r: i64)
        ensures
            r == self.exclusive_end,
    {
        self.exclusive_end
    }

    /// Whether the timestamp `t` falls within the range.
    pub fn contains(&self, t: i64) -> (r: bool)
        ensures
            r == (self.inclusive_start <= t < self.exclusive_end),
    {
        self.inclusive_start <= t && t < self.exclusive_end
    }
}

} // verus!

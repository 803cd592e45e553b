//! Half-open ranges of line indices.

use vstd::prelude::*;

verus! {

/// A half-open range `[begin, end)` of line indices with `begin <= end`.
pub struct Range {
    pub begin: usize,
    pub end: usize,
}

/// Why a pair of bounds is not a range.
#[derive(Debug, PartialEq, Eq, Structural, Clone, Copy)]
pub enum RangeError {
    /// The begin lies behind the end.
    BeginAfterEnd,
}

impl Range {
    /// The bounds are in order.
    pub open spec fn wf(&self) -> bool {
        self.begin <= self.end
    }

    /// The number of indices in the range.
    pub open spec fn spec_len(&self) -> int {
        self.end - self.begin
    }

    /// Builds the range `[begin, end)`.
    pub fn new(begin: usize, end: usize) -> (r: Self)
        requires
            begin <= end,
        ensures
            r.begin == begin,
            r.end == end,
            r.wf(),
    {
        Self { begin, end }
    }

    /// Builds the range `[begin, end)`, or reports bounds that are out of order.
    pub fn try_new(begin: usize, end: usize) -> (r: Result<Self, RangeError>)
        ensures
            begin <= end ==> r is Ok && r->Ok_0.begin == begin && r->Ok_0.end == end && r->Ok_0.wf(),
            begin > end ==> r == Err::<Self, RangeError>(RangeError::BeginAfterEnd),
    {
        if begin <= end {
            Ok(Self { begin, end })
        } else {
            Err(RangeError::BeginAfterEnd)
        }
    }

    /// The number of indices in the range.
    pub fn len(&self) -> (n: usize)
        requires
            self.wf(),
        ensures
            n == self.spec_len(),
    {
        self.end - self.begin
    }
}

} // verus!

//! The range-building operator: a value up to, but not including,
//! another.

use vstd::prelude::*;

use crate::concept::Arithmetic;

verus! {

/// A scalar that spans a half-open range to an upper end.
pub trait RangeTo: Arithmetic {
    fn until(self, rhs: Self) -> (r: core::ops::Range<Self>)
        ensures
            r.start.v() == self.v(),
            r.end.v() == rhs.v(),
    ;
}

impl RangeTo for i64 {
    fn until(self, rhs: Self) -> (r: core::ops::Range<Self>) {
        self..rhs
    }
}

impl RangeTo for i32 {
    fn until(self, rhs: Self) -> (r: core::ops::Range<Self>) {
        self..rhs
    }
}

impl RangeTo for u64 {
    fn until(self, rhs: Self) -> (r: core::ops::Range<Self>) {
        self..rhs
    }
}

} // verus!

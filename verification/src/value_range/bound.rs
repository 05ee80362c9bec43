//! One end of a value range: an extended value, the endpoint kind, and
//! which side it bounds.

use vstd::prelude::*;

use crate::value_range::interval::Closed;
use crate::value_range::interval::Interval;
use crate::value_range::interval::IntervalType;
use crate::value_range::value_wrapper::ValueWrapper;

verus! {

/// Which side of the range a bound closes.
#[derive(Clone, Copy, Debug, PartialEq, Eq, Structural)]
pub enum BoundSide {
    Lower,
    Upper,
}

/// A bound whose endpoint kind is fixed at the type level.
pub struct BoundStc<T, I: IntervalType = Closed> {
    pub value: ValueWrapper<T>,
    pub side: BoundSide,
    pub marker: core::marker::PhantomData<I>,
}

/// A bound whose endpoint kind is carried at runtime.
pub struct Bound<T> {
    pub value: ValueWrapper<T>,
    pub interval: Interval,
    pub side: BoundSide,
}

impl<T: crate::concept::Arithmetic> Bound<T> {
    /// A bound standing for the same end.
    pub fn dup(&self) -> (r: Self)
        ensures
            r.value.ext() == self.value.ext(),
            r.interval == self.interval,
            r.side == self.side,
    {
        Bound { value: self.value.dup(), interval: self.interval, side: self.side }
    }
}

} // verus!

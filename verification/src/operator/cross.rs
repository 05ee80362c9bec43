//! The cross operator: on scalars it is plain multiplication.

use vstd::prelude::*;

use crate::concept::Arithmetic;
use crate::concept::TimesSemiGroup;
use crate::model::mul_v;

verus! {

/// A scalar whose cross with another of its kind is their product.
pub trait Cross: Arithmetic {
    fn cross(&self, rhs: &Self) -> (r: Self)
        requires
            Self::in_range(mul_v(self.v(), rhs.v(), Self::scale())),
        ensures
            r.v() == mul_v(self.v(), rhs.v(), Self::scale()),
    ;
}

impl<T: TimesSemiGroup> Cross for T {
    fn cross(&self, rhs: &Self) -> (r: Self) {
        self.mul_val(rhs)
    }
}

/// The cross of two scalars.
pub fn cross<T: Cross>(lhs: &T, rhs: &T) -> (r: T)
    requires
        T::in_range(mul_v(lhs.v(), rhs.v(), T::scale())),
    ensures
        r.v() == mul_v(lhs.v(), rhs.v(), T::scale()),
{
    lhs.cross(rhs)
}

} // verus!

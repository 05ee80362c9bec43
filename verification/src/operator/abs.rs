//! The absolute value operator.

use vstd::prelude::*;

use crate::concept::Arithmetic;
use crate::dec64::Dec64;
use crate::model::abs_i;

verus! {

/// A scalar with an absolute value.
pub trait Abs: Arithmetic {
    fn abs(&self) -> (r: Self)
        requires
            Self::in_range(abs_i(self.v())),
        ensures
            r.v() == abs_i(self.v()),
    ;
}

/// The absolute value of a scalar.
pub fn abs<T: Abs>(value: &T) -> (r: T)
    requires
        T::in_range(abs_i(value.v())),
    ensures
        r.v() == abs_i(value.v()),
{
    value.abs()
}

impl Abs for i64 {
    fn abs(&self) -> (r: Self) {
        if *self < 0 {
            -*self
        } else {
            *self
        }
    }
}

impl Abs for i32 {
    fn abs(&self) -> (r: Self) {
        if *self < 0 {
            -*self
        } else {
            *self
        }
    }
}

impl Abs for u64 {
    fn abs(&self) -> (r: Self) {
        *self
    }
}

impl Abs for Dec64 {
    fn abs(&self) -> (r: Self) {
        if self.num < 0 {
            Dec64 { num: -self.num }
        } else {
            Dec64 { num: self.num }
        }
    }
}

} // verus!

//! The negation operator.  Signed scalars negate in place; an unsigned
//! scalar wraps to its two's-complement counterpart, as the bit pattern
//! of the machine negation would.

use vstd::prelude::*;

use crate::concept::Arithmetic;
use crate::dec64::Dec64;

verus! {

/// A scalar with a negation, into a possibly different scalar.
pub trait Neg: Arithmetic {
    type Output: Arithmetic;

    /// Which values can be negated.
    spec fn neg_ok(v: int) -> bool;

    /// The numerator of the negation.
    spec fn neg_v(v: int) -> int;

    fn neg(&self) -> (r: Self::Output)
        requires
            Self::neg_ok(self.v()),
        ensures
            r.v() == Self::neg_v(self.v()),
    ;
}

/// The negation of a scalar.
pub fn neg<T: Neg>(x: &T) -> (r: T::Output)
    requires
        T::neg_ok(x.v()),
    ensures
        r.v() == T::neg_v(x.v()),
{
    x.neg()
}

impl Neg for i64 {
    type Output = i64;

    open spec fn neg_ok(v: int) -> bool {
        v != i64::MIN
    }

    open spec fn neg_v(v: int) -> int {
        -v
    }

    fn neg(&self) -> (r: Self::Output) {
        -*self
    }
}

impl Neg for i32 {
    type Output = i32;

    open spec fn neg_ok(v: int) -> bool {
        v != i32::MIN
    }

    open spec fn neg_v(v: int) -> int {
        -v
    }

    fn neg(&self) -> (r: Self::Output) {
        -*self
    }
}

impl Neg for u64 {
    type Output = u64;

    open spec fn neg_ok(v: int) -> bool {
        v != 0
    }

    open spec fn neg_v(v: int) -> int {
        u64::MAX - v + 1
    }

    fn neg(&self) -> (r: Self::Output) {
        u64::MAX - *self + 1
    }
}

impl Neg for Dec64 {
    type Output = Dec64;

    open spec fn neg_ok(v: int) -> bool {
        v != i64::MIN
    }

    open spec fn neg_v(v: int) -> int {
        -v
    }

    fn neg(&self) -> (r: Self::Output) {
        Dec64 { num: -self.num }
    }
}

} // verus!

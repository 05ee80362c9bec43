//! Whole division: on integer scalars ordinary division, on the decimal
//! scalar the quotient rounded down to a whole number.

use vstd::prelude::*;

use crate::concept::Arithmetic;
use crate::concept::FloatingNumber;
use crate::concept::TimesGroup;
use crate::dec64::Dec64;
use crate::dec64::DEC64_SCALE;
use crate::model::div_v;
use crate::model::tdiv;

verus! {

/// A scalar with whole division.
pub trait IntDiv: Arithmetic {
    /// Which dividend and divisor numerators are accepted.
    spec fn int_div_ok(a: int, b: int) -> bool;

    /// The numerator of the whole quotient.
    spec fn int_div_v(a: int, b: int) -> int;

    fn int_div(&self, rhs: &Self) -> (r: Self)
        requires
            rhs.v() != 0,
            Self::int_div_ok(self.v(), rhs.v()),
        ensures
            r.v() == Self::int_div_v(self.v(), rhs.v()),
    ;
}

/// The whole quotient of two scalars.
pub fn int_div<T: IntDiv>(lhs: &T, rhs: &T) -> (r: T)
    requires
        rhs.v() != 0,
        T::int_div_ok(lhs.v(), rhs.v()),
    ensures
        r.v() == T::int_div_v(lhs.v(), rhs.v()),
{
    lhs.int_div(rhs)
}

impl IntDiv for i64 {
    open spec fn int_div_ok(a: int, b: int) -> bool {
        i64::MIN <= tdiv(a, b) <= i64::MAX
    }

    open spec fn int_div_v(a: int, b: int) -> int {
        tdiv(a, b)
    }

    fn int_div(&self, rhs: &Self) -> (r: Self) {
        self.div_val(rhs)
    }
}

impl IntDiv for i32 {
    open spec fn int_div_ok(a: int, b: int) -> bool {
        i32::MIN <= tdiv(a, b) <= i32::MAX
    }

    open spec fn int_div_v(a: int, b: int) -> int {
        tdiv(a, b)
    }

    fn int_div(&self, rhs: &Self) -> (r: Self) {
        self.div_val(rhs)
    }
}

impl IntDiv for u64 {
    open spec fn int_div_ok(a: int, b: int) -> bool {
        true
    }

    open spec fn int_div_v(a: int, b: int) -> int {
        tdiv(a, b)
    }

    fn int_div(&self, rhs: &Self) -> (r: Self) {
        proof {
            crate::model::lemma_tdiv_abs_le(self.v(), rhs.v());
        }
        self.div_val(rhs)
    }
}

impl IntDiv for Dec64 {
    open spec fn int_div_ok(a: int, b: int) -> bool {
        &&& i64::MIN <= div_v(a, b, DEC64_SCALE as int) <= i64::MAX
        &&& i64::MIN <= (div_v(a, b, DEC64_SCALE as int) / (DEC64_SCALE as int)) * (
        DEC64_SCALE as int) <= i64::MAX
    }

    open spec fn int_div_v(a: int, b: int) -> int {
        (div_v(a, b, DEC64_SCALE as int) / (DEC64_SCALE as int)) * (DEC64_SCALE as int)
    }

    fn int_div(&self, rhs: &Self) -> (r: Self) {
        let q = self.div_val(rhs);
        q.floor()
    }
}

} // verus!

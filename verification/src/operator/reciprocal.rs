//! The reciprocal operator: `1 / x` in the scalar's own division, or
//! the absent-result indicator for zero, which has no reciprocal on any
//! scalar of this library.

use vstd::prelude::*;

use crate::concept::Arithmetic;
use crate::dec64::Dec64;
use crate::dec64::DEC64_SCALE;
use crate::model::abs_i;
use crate::model::tdiv;

verus! {

/// A scalar with a reciprocal: `None` exactly on zero, otherwise the
/// truncated quotient of one by the value.
pub trait Reciprocal: Arithmetic {
    fn reciprocal(&self) -> (r: Option<Self>)
        ensures
            r.is_some() == (self.v() != 0),
            r matches Some(w) ==> w.v() == tdiv(Self::scale() * Self::scale(), self.v()),
    ;
}

/// The reciprocal of a scalar.
pub fn reciprocal<T: Reciprocal>(value: &T) -> (r: Option<T>)
    ensures
        r.is_some() == (value.v() != 0),
        r matches Some(w) ==> w.v() == tdiv(T::scale() * T::scale(), value.v()),
{
    value.reciprocal()
}

/// The reciprocal of an integer truncates to zero beyond one.
proof fn lemma_unit_reciprocal(v: int)
    requires
        v != 0,
    ensures
        abs_i(v) >= 2 ==> tdiv(1, v) == 0,
        v == 1 ==> tdiv(1, v) == 1,
        v == -1 ==> tdiv(1, v) == -1,
{
    if abs_i(v) >= 2 {
        vstd::arithmetic::div_mod::lemma_basic_div(1, abs_i(v));
    }
}

impl Reciprocal for i64 {
    fn reciprocal(&self) -> (r: Option<Self>) {
        proof {
            if *self != 0 {
                lemma_unit_reciprocal(*self as int);
            }
        }
        if *self == 0 {
            None
        } else if *self == 1 {
            Some(1)
        } else if *self == -1 {
            Some(-1)
        } else {
            Some(0)
        }
    }
}

impl Reciprocal for i32 {
    fn reciprocal(&self) -> (r: Option<Self>) {
        proof {
            if *self != 0 {
                lemma_unit_reciprocal(*self as int);
            }
        }
        if *self == 0 {
            None
        } else if *self == 1 {
            Some(1)
        } else if *self == -1 {
            Some(-1)
        } else {
            Some(0)
        }
    }
}

impl Reciprocal for u64 {
    fn reciprocal(&self) -> (r: Option<Self>) {
        proof {
            if *self != 0 {
                lemma_unit_reciprocal(*self as int);
            }
        }
        if *self == 0 {
            None
        } else if *self == 1 {
            Some(1)
        } else {
            Some(0)
        }
    }
}

impl Reciprocal for Dec64 {
    fn reciprocal(&self) -> (r: Option<Self>) {
        if self.num == 0 {
            None
        } else {
            let p: i128 = (DEC64_SCALE as i128) * (DEC64_SCALE as i128);
            let q: i128 = p.checked_div(self.num as i128).unwrap();
            proof {
                crate::model::lemma_tdiv_abs_le(
                    (DEC64_SCALE as int) * (DEC64_SCALE as int),
                    self.num as int,
                );
            }
            Some(Dec64 { num: q as i64 })
        }
    }
}

} // verus!

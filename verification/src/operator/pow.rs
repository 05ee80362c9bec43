//! The power operators: whole-number exponentiation for every scalar
//! that multiplies, real exponentiation and roots for the decimal
//! scalar.

use vstd::prelude::*;

use crate::concept::Arithmetic;
use crate::dec64::Dec64;
use crate::dec64::DEC64_SCALE;
use crate::ordinary::pow::pow_acc;
use crate::ordinary::pow::pow_div_acc;
use crate::ordinary::pow::pow_div_ready;
use crate::ordinary::pow::pow_ready;
use crate::ordinary::pow::pow_times_group;
use crate::ordinary::pow::pow_times_semi_group;
use crate::ordinary::powf::exp_v;
use crate::ordinary::powf::powf_v;

verus! {

/// The numerators of an optional scalar value.
pub open spec fn opt_v<T: Arithmetic>(r: Option<T>) -> Option<int> {
    match r {
        None => None,
        Some(t) => Some(t.v()),
    }
}

/// A scalar with whole-number exponentiation.
pub trait Pow: Arithmetic {
    /// Which base and exponent pairs are accepted.
    spec fn pow_ok(v: int, index: int) -> bool;

    /// The numerator of the power.
    spec fn pow_v(v: int, index: int) -> int;

    fn pow(&self, index: i64) -> (r: Self)
        requires
            Self::pow_ok(self.v(), index as int),
        ensures
            r.v() == Self::pow_v(self.v(), index as int),
    ;
}

/// The power of a scalar.
pub fn pow<T: Pow>(lhs: &T, index: i64) -> (r: T)
    requires
        T::pow_ok(lhs.v(), index as int),
    ensures
        r.v() == T::pow_v(lhs.v(), index as int),
{
    lhs.pow(index)
}

/// The second power of a scalar.
pub fn square<T: Pow>(lhs: &T) -> (r: T)
    requires
        T::pow_ok(lhs.v(), 2),
    ensures
        r.v() == T::pow_v(lhs.v(), 2),
{
    lhs.pow(2)
}

/// The third power of a scalar.
pub fn cubic<T: Pow>(lhs: &T) -> (r: T)
    requires
        T::pow_ok(lhs.v(), 3),
    ensures
        r.v() == T::pow_v(lhs.v(), 3),
{
    lhs.pow(3)
}

impl Pow for i64 {
    open spec fn pow_ok(v: int, index: int) -> bool {
        index >= 0 && pow_ready::<i64>(1, v, index as nat)
    }

    open spec fn pow_v(v: int, index: int) -> int {
        pow_acc(1, v, index as nat, 1)
    }

    fn pow(&self, index: i64) -> (r: Self) {
        pow_times_semi_group(self, index).unwrap()
    }
}

impl Pow for i32 {
    open spec fn pow_ok(v: int, index: int) -> bool {
        index >= 0 && pow_ready::<i32>(1, v, index as nat)
    }

    open spec fn pow_v(v: int, index: int) -> int {
        pow_acc(1, v, index as nat, 1)
    }

    fn pow(&self, index: i64) -> (r: Self) {
        pow_times_semi_group(self, index).unwrap()
    }
}

impl Pow for u64 {
    open spec fn pow_ok(v: int, index: int) -> bool {
        index >= 0 && pow_ready::<u64>(1, v, index as nat)
    }

    open spec fn pow_v(v: int, index: int) -> int {
        pow_acc(1, v, index as nat, 1)
    }

    fn pow(&self, index: i64) -> (r: Self) {
        pow_times_semi_group(self, index).unwrap()
    }
}

impl Pow for Dec64 {
    open spec fn pow_ok(v: int, index: int) -> bool {
        if index >= 0 {
            pow_ready::<Dec64>(DEC64_SCALE as int, v, index as nat)
        } else {
            v != 0 && pow_div_ready::<Dec64>(DEC64_SCALE as int, v, (-index) as nat)
        }
    }

    open spec fn pow_v(v: int, index: int) -> int {
        if index >= 0 {
            pow_acc(DEC64_SCALE as int, v, index as nat, DEC64_SCALE as int)
        } else {
            pow_div_acc(DEC64_SCALE as int, v, (-index) as nat, DEC64_SCALE as int)
        }
    }

    fn pow(&self, index: i64) -> (r: Self) {
        pow_times_group(self, index)
    }
}

/// A scalar with real exponentiation and the roots derived from it.
pub trait PowF: Arithmetic {
    /// What exponentiation answers on the given numerators.
    spec fn powf_s(b: int, i: int) -> Option<int>;

    /// The numerator of the exponent a square root uses.
    spec fn sqrt_index_v() -> int;

    /// The numerator of the exponent a cube root uses.
    spec fn cbrt_index_v() -> int;

    fn powf(&self, index: &Self) -> (r: Option<Self>)
        ensures
            opt_v(r) == Self::powf_s(self.v(), index.v()),
    ;

    fn sqrt(&self) -> (r: Option<Self>)
        ensures
            opt_v(r) == Self::powf_s(self.v(), Self::sqrt_index_v()),
    ;

    fn cbrt(&self) -> (r: Option<Self>)
        ensures
            opt_v(r) == Self::powf_s(self.v(), Self::cbrt_index_v()),
    ;
}

/// Real exponentiation of a scalar.
pub fn powf<T: PowF>(lhs: &T, rhs: &T) -> (r: Option<T>)
    ensures
        opt_v(r) == T::powf_s(lhs.v(), rhs.v()),
{
    lhs.powf(rhs)
}

/// The square root of a scalar, as the half power.
pub fn sqrt<T: PowF>(lhs: &T) -> (r: Option<T>)
    ensures
        opt_v(r) == T::powf_s(lhs.v(), T::sqrt_index_v()),
{
    lhs.sqrt()
}

/// The cube root of a scalar, as the third power's inverse.
pub fn cbrt<T: PowF>(lhs: &T) -> (r: Option<T>)
    ensures
        opt_v(r) == T::powf_s(lhs.v(), T::cbrt_index_v()),
{
    lhs.cbrt()
}

impl PowF for Dec64 {
    open spec fn powf_s(b: int, i: int) -> Option<int> {
        powf_v(b, i)
    }

    open spec fn sqrt_index_v() -> int {
        500_000_000
    }

    open spec fn cbrt_index_v() -> int {
        333_333_333
    }

    fn powf(&self, index: &Self) -> (r: Option<Self>) {
        crate::ordinary::powf::powf(self, index)
    }

    fn sqrt(&self) -> (r: Option<Self>) {
        let half = Dec64 { num: 500_000_000 };
        crate::ordinary::powf::powf(self, &half)
    }

    fn cbrt(&self) -> (r: Option<Self>) {
        let third = Dec64 { num: 333_333_333 };
        crate::ordinary::powf::powf(self, &third)
    }
}

/// A scalar with a natural exponential.
pub trait Exp: Arithmetic {
    /// What the exponential answers on the given numerator.
    spec fn exp_s(v: int) -> Option<int>;

    fn exp(&self) -> (r: Option<Self>)
        ensures
            opt_v(r) == Self::exp_s(self.v()),
    ;
}

/// The natural exponential of a scalar.
pub fn exp<T: Exp>(lhs: &T) -> (r: Option<T>)
    ensures
        opt_v(r) == T::exp_s(lhs.v()),
{
    lhs.exp()
}

impl Exp for Dec64 {
    open spec fn exp_s(v: int) -> Option<int> {
        exp_v(v)
    }

    fn exp(&self) -> (r: Option<Self>) {
        crate::ordinary::powf::exp(self)
    }
}

} // verus!

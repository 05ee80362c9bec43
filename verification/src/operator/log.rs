//! The logarithm operators, derived from the natural logarithm.

use vstd::prelude::*;

use crate::concept::Arithmetic;
use crate::dec64::Dec64;
use crate::operator::pow::opt_v;
use crate::ordinary::log::ln_v;
use crate::ordinary::log::log_v;

verus! {

/// A scalar with logarithms: in a given base, base two, base ten, and
/// the natural one.
pub trait Log: Arithmetic {
    /// What the logarithm answers on the given numerators.
    spec fn log_s(base: int, x: int) -> Option<int>;

    /// What the natural logarithm answers.
    spec fn ln_s(x: int) -> Option<int>;

    fn log(&self, base: &Self) -> (r: Option<Self>)
        ensures
            opt_v(r) == Self::log_s(base.v(), self.v()),
    ;

    fn lg2(&self) -> (r: Option<Self>)
        ensures
            opt_v(r) == Self::log_s(2 * Self::scale(), self.v()),
    ;

    fn lg(&self) -> (r: Option<Self>)
        ensures
            opt_v(r) == Self::log_s(10 * Self::scale(), self.v()),
    ;

    fn ln(&self) -> (r: Option<Self>)
        ensures
            opt_v(r) == Self::ln_s(self.v()),
    ;
}

/// The logarithm of a scalar in the given base.
pub fn log<T: Log>(lhs: &T, base: &T) -> (r: Option<T>)
    ensures
        opt_v(r) == T::log_s(base.v(), lhs.v()),
{
    lhs.log(base)
}

/// The base-two logarithm of a scalar.
pub fn lg2<T: Log>(lhs: &T) -> (r: Option<T>)
    ensures
        opt_v(r) == T::log_s(2 * T::scale(), lhs.v()),
{
    lhs.lg2()
}

/// The base-ten logarithm of a scalar.
pub fn lg<T: Log>(lhs: &T) -> (r: Option<T>)
    ensures
        opt_v(r) == T::log_s(10 * T::scale(), lhs.v()),
{
    lhs.lg()
}

/// The natural logarithm of a scalar.
pub fn ln<T: Log>(lhs: &T) -> (r: Option<T>)
    ensures
        opt_v(r) == T::ln_s(lhs.v()),
{
    lhs.ln()
}

impl Log for Dec64 {
    open spec fn log_s(base: int, x: int) -> Option<int> {
        log_v(base, x)
    }

    open spec fn ln_s(x: int) -> Option<int> {
        ln_v(x)
    }

    fn log(&self, base: &Self) -> (r: Option<Self>) {
        crate::ordinary::log::log(base, self)
    }

    fn lg2(&self) -> (r: Option<Self>) {
        crate::ordinary::log::lg2(self)
    }

    fn lg(&self) -> (r: Option<Self>) {
        crate::ordinary::log::lg10(self)
    }

    fn ln(&self) -> (r: Option<Self>) {
        crate::ordinary::log::ln(self)
    }
}

} // verus!

//! The zero test: `x == 0` exactly, or `|x| <= p` within a tolerance.

use vstd::prelude::*;

use crate::comparison::tol_v;
use crate::comparison::zero_sem;
use crate::concept::Arithmetic;
use crate::concept::Precision;
use crate::concept::RealNumber;
use crate::model::abs_i;

verus! {

/// A built zero-test operator over the scalar `T`.
pub trait ZeroOpr<T: Arithmetic> {
    /// `None`: the exact strategy; `Some(p)`: tolerant with tolerance `p`.
    spec fn tol(&self) -> Option<int>;

    /// The tolerance the operator applies; zero for the exact strategy.
    fn precision(&self) -> (r: T)
        ensures
            r.v() == tol_v(self.tol()),
    ;

    fn call(&self, x: &T) -> (r: bool)
        requires
            T::in_range(abs_i(x.v())),
        ensures
            r == zero_sem(self.tol(), x.v()),
    ;
}

/// The exact strategy: a value is zero when its numerator is.
#[derive(Clone, Copy, Debug, PartialEq, Eq)]
pub struct ZeroInt {
}

impl ZeroInt {
    pub fn new() -> (r: Self) {
        ZeroInt {  }
    }
}

impl<T: Arithmetic> ZeroOpr<T> for ZeroInt {
    open spec fn tol(&self) -> Option<int> {
        None
    }

    fn precision(&self) -> (r: T) {
        T::zero()
    }

    fn call(&self, x: &T) -> (r: bool) {
        let z = T::zero();
        x.eq_val(&z)
    }
}

/// The tolerant strategy, carrying its nonnegative tolerance.
#[derive(Clone, Copy, Debug)]
pub struct ZeroFlt<T> {
    pub precision: T,
}

impl<T: Precision> ZeroFlt<T> {
    /// The default tolerance: the scalar's decimal precision.
    pub fn new() -> (r: Self)
        ensures
            r.precision.v() == T::decimal_precision_v(),
    {
        ZeroFlt { precision: T::decimal_precision() }
    }

    /// An explicit tolerance, normalized by absolute value.
    pub fn new_with(precision: T) -> (r: Self)
        requires
            T::in_range(abs_i(precision.v())),
        ensures
            r.precision.v() == abs_i(precision.v()),
    {
        let z = T::zero();
        ZeroFlt { precision: precision.dist(&z) }
    }
}

impl<T: Arithmetic> ZeroOpr<T> for ZeroFlt<T> {
    open spec fn tol(&self) -> Option<int> {
        Some(self.precision.v())
    }

    fn precision(&self) -> (r: T) {
        self.precision.dup()
    }

    fn call(&self, x: &T) -> (r: bool) {
        let z = T::zero();
        let d = x.dist(&z);
        d.le_val(&self.precision)
    }
}

/// The zero-test builder: picks the strategy the scalar declares.
#[derive(Clone, Copy, Debug)]
pub enum Zero<T> {
    Exact(ZeroInt),
    Tolerant(ZeroFlt<T>),
}

impl<T: RealNumber> Zero<T> {
    /// Exact for exact scalars; tolerant with the scalar's decimal
    /// precision for scalars that declare a tolerant comparison.
    pub fn new() -> (r: Self)
        ensures
            r.tol() == if T::is_tolerant() {
                Some(T::decimal_precision_v())
            } else {
                (None::<int>)
            },
    {
        if T::tolerant() {
            Zero::Tolerant(ZeroFlt::new())
        } else {
            Zero::Exact(ZeroInt::new())
        }
    }

    /// Tolerant with the given tolerance, normalized by absolute value.
    pub fn new_with(precision: T) -> (r: Self)
        requires
            T::in_range(abs_i(precision.v())),
        ensures
            r.tol() == Some(abs_i(precision.v())),
    {
        Zero::Tolerant(ZeroFlt::new_with(precision))
    }
}

impl<T: Arithmetic> ZeroOpr<T> for Zero<T> {
    open spec fn tol(&self) -> Option<int> {
        match self {
            Zero::Exact(_) => None,
            Zero::Tolerant(op) => Some(op.precision.v()),
        }
    }

    fn precision(&self) -> (r: T) {
        match self {
            Zero::Exact(op) => op.precision(),
            Zero::Tolerant(op) => op.precision(),
        }
    }

    fn call(&self, x: &T) -> (r: bool) {
        match self {
            Zero::Exact(op) => op.call(x),
            Zero::Tolerant(op) => op.call(x),
        }
    }
}

/// Builds the relation's operator: the strategy the scalar declares,
/// or an explicit tolerance.
pub trait ZeroOprBuilder<T: RealNumber>: ZeroOpr<T> + Sized {
    fn new() -> (r: Self)
        ensures
            r.tol() == if T::is_tolerant() {
                Some(T::decimal_precision_v())
            } else {
                (None::<int>)
            },
    ;

    fn new_with(precision: T) -> (r: Self)
        requires
            T::in_range(abs_i(precision.v())),
        ensures
            r.tol() == Some(abs_i(precision.v())),
    ;
}

impl<T: RealNumber> ZeroOprBuilder<T> for Zero<T> {
    fn new() -> (r: Self) {
        Zero::new()
    }

    fn new_with(precision: T) -> (r: Self) {
        Zero::new_with(precision)
    }
}

} // verus!

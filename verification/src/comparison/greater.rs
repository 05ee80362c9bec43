//! The strict greater-than relation: exact, or greater within a tolerance.

use vstd::prelude::*;

use crate::comparison::greater_sem;
use crate::comparison::tol_v;
use crate::concept::Arithmetic;
use crate::concept::Precision;
use crate::concept::RealNumber;
use crate::model::abs_i;

verus! {

/// A built operator deciding the relation over the scalar `T`.
pub trait GreaterOpr<T: Arithmetic> {
    /// `None`: the exact strategy; `Some(p)`: tolerant with tolerance `p`.
    spec fn tol(&self) -> Option<int>;

    /// The tolerance the operator applies; zero for the exact strategy.
    fn precision(&self) -> (r: T)
        ensures
            r.v() == tol_v(self.tol()),
    ;

    fn call(&self, x: &T, y: &T) -> (r: bool)
        requires
            T::in_range(abs_i(x.v() - y.v())),
        ensures
            r == greater_sem(self.tol(), x.v(), y.v()),
    ;
}

/// The exact strategy.
#[derive(Clone, Copy, Debug, PartialEq, Eq)]
pub struct GreaterInt {
}

impl GreaterInt {
    pub fn new() -> (r: Self) {
        GreaterInt {  }
    }
}

impl<T: Arithmetic> GreaterOpr<T> for GreaterInt {
    open spec fn tol(&self) -> Option<int> {
        None
    }

    fn precision(&self) -> (r: T) {
        T::zero()
    }

    fn call(&self, x: &T, y: &T) -> (r: bool) {
        y.lt_val(x)
    }
}

/// The tolerant strategy, carrying its nonnegative tolerance.
#[derive(Clone, Copy, Debug)]
pub struct GreaterFlt<T> {
    pub precision: T,
}

impl<T: Precision> GreaterFlt<T> {
    /// The default tolerance: the scalar's decimal precision.
    pub fn new() -> (r: Self)
        ensures
            r.precision.v() == T::decimal_precision_v(),
    {
        GreaterFlt { precision: T::decimal_precision() }
    }

    /// An explicit tolerance, normalized by absolute value.
    pub fn new_with(precision: T) -> (r: Self)
        requires
            T::in_range(abs_i(precision.v())),
        ensures
            r.precision.v() == abs_i(precision.v()),
    {
        let z = T::zero();
        GreaterFlt { precision: precision.dist(&z) }
    }
}

impl<T: Arithmetic> GreaterOpr<T> for GreaterFlt<T> {
    open spec fn tol(&self) -> Option<int> {
        Some(self.precision.v())
    }

    fn precision(&self) -> (r: T) {
        self.precision.dup()
    }

    fn call(&self, x: &T, y: &T) -> (r: bool) {
        if x.lt_val(y) {
            false
        } else {
            let d = x.dist(y);
            self.precision.lt_val(&d)
        }
    }
}

/// The builder: picks the strategy the scalar declares.
#[derive(Clone, Copy, Debug)]
pub enum Greater<T> {
    Exact(GreaterInt),
    Tolerant(GreaterFlt<T>),
}

impl<T: RealNumber> Greater<T> {
    /// Exact for exact scalars; tolerant with the scalar's decimal
    /// precision for scalars that declare a tolerant comparison.
    pub fn new() -> (r: Self)
        ensures
            r.tol() == if T::is_tolerant() {
                Some(T::decimal_precision_v())
            } else {
                (None::<int>)
            },
    {
        if T::tolerant() {
            Greater::Tolerant(GreaterFlt::new())
        } else {
            Greater::Exact(GreaterInt::new())
        }
    }

    /// Tolerant with the given tolerance, normalized by absolute value.
    pub fn new_with(precision: T) -> (r: Self)
        requires
            T::in_range(abs_i(precision.v())),
        ensures
            r.tol() == Some(abs_i(precision.v())),
    {
        Greater::Tolerant(GreaterFlt::new_with(precision))
    }
}

impl<T: Arithmetic> GreaterOpr<T> for Greater<T> {
    open spec fn tol(&self) -> Option<int> {
        match self {
            Greater::Exact(_) => None,
            Greater::Tolerant(op) => Some(op.precision.v()),
        }
    }

    fn precision(&self) -> (r: T) {
        match self {
            Greater::Exact(op) => op.precision(),
            Greater::Tolerant(op) => op.precision(),
        }
    }

    fn call(&self, x: &T, y: &T) -> (r: bool) {
        match self {
            Greater::Exact(op) => op.call(x, y),
            Greater::Tolerant(op) => op.call(x, y),
        }
    }
}

/// Builds the relation's operator: the strategy the scalar declares,
/// or an explicit tolerance.
pub trait GreaterOprBuilder<T: RealNumber>: GreaterOpr<T> + Sized {
    fn new() -> (r: Self)
        ensures
            r.tol() == if T::is_tolerant() {
                Some(T::decimal_precision_v())
            } else {
                (None::<int>)
            },
    ;

    fn new_with(precision: T) -> (r: Self)
        requires
            T::in_range(abs_i(precision.v())),
        ensures
            r.tol() == Some(abs_i(precision.v())),
    ;
}

impl<T: RealNumber> GreaterOprBuilder<T> for Greater<T> {
    fn new() -> (r: Self) {
        Greater::new()
    }

    fn new_with(precision: T) -> (r: Self) {
        Greater::new_with(precision)
    }
}

} // verus!

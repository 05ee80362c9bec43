//! The inequality relation: exact, or unequal within a tolerance.

use vstd::prelude::*;

use crate::comparison::unequal_sem;
use crate::comparison::tol_v;
use crate::concept::Arithmetic;
use crate::concept::Precision;
use crate::concept::RealNumber;
use crate::model::abs_i;

verus! {

/// A built operator deciding the relation over the scalar `T`.
pub trait UnequalOpr<T: Arithmetic> {
    /// `None`: the exact strategy; `Some(p)`: tolerant with tolerance `p`.
    spec fn tol(&self) -> Option<int>;

    /// The tolerance the operator applies; zero for the exact strategy.
    fn precision(&self) -> (r: T)
        ensures
            r.v() == tol_v(self.tol()),
    ;

    fn call(&self, x: &T, y: &T) -> (r: bool)
        requires
            T::in_range(abs_i(x.v() - y.v())),
        ensures
            r == unequal_sem(self.tol(), x.v(), y.v()),
    ;
}

/// The exact strategy.
#[derive(Clone, Copy, Debug, PartialEq, Eq)]
pub struct UnequalInt {
}

impl UnequalInt {
    pub fn new() -> (r: Self) {
        UnequalInt {  }
    }
}

impl<T: Arithmetic> UnequalOpr<T> for UnequalInt {
    open spec fn tol(&self) -> Option<int> {
        None
    }

    fn precision(&self) -> (r: T) {
        T::zero()
    }

    fn call(&self, x: &T, y: &T) -> (r: bool) {
        !x.eq_val(y)
    }
}

/// The tolerant strategy, carrying its nonnegative tolerance.
#[derive(Clone, Copy, Debug)]
pub struct UnequalFlt<T> {
    pub precision: T,
}

impl<T: Precision> UnequalFlt<T> {
    /// The default tolerance: the scalar's decimal precision.
    pub fn new() -> (r: Self)
        ensures
            r.precision.v() == T::decimal_precision_v(),
    {
        UnequalFlt { precision: T::decimal_precision() }
    }

    /// An explicit tolerance, normalized by absolute value.
    pub fn new_with(precision: T) -> (r: Self)
        requires
            T::in_range(abs_i(precision.v())),
        ensures
            r.precision.v() == abs_i(precision.v()),
    {
        let z = T::zero();
        UnequalFlt { precision: precision.dist(&z) }
    }
}

impl<T: Arithmetic> UnequalOpr<T> for UnequalFlt<T> {
    open spec fn tol(&self) -> Option<int> {
        Some(self.precision.v())
    }

    fn precision(&self) -> (r: T) {
        self.precision.dup()
    }

    fn call(&self, x: &T, y: &T) -> (r: bool) {
        let d = x.dist(y);
        !d.le_val(&self.precision)
    }
}

/// The builder: picks the strategy the scalar declares.
#[derive(Clone, Copy, Debug)]
pub enum Unequal<T> {
    Exact(UnequalInt),
    Tolerant(UnequalFlt<T>),
}

impl<T: RealNumber> Unequal<T> {
    /// Exact for exact scalars; tolerant with the scalar's decimal
    /// precision for scalars that declare a tolerant comparison.
    pub fn new() -> (r: Self)
        ensures
            r.tol() == if T::is_tolerant() {
                Some(T::decimal_precision_v())
            } else {
                (None::<int>)
            },
    {
        if T::tolerant() {
            Unequal::Tolerant(UnequalFlt::new())
        } else {
            Unequal::Exact(UnequalInt::new())
        }
    }

    /// Tolerant with the given tolerance, normalized by absolute value.
    pub fn new_with(precision: T) -> (r: Self)
        requires
            T::in_range(abs_i(precision.v())),
        ensures
            r.tol() == Some(abs_i(precision.v())),
    {
        Unequal::Tolerant(UnequalFlt::new_with(precision))
    }
}

impl<T: Arithmetic> UnequalOpr<T> for Unequal<T> {
    open spec fn tol(&self) -> Option<int> {
        match self {
            Unequal::Exact(_) => None,
            Unequal::Tolerant(op) => Some(op.precision.v()),
        }
    }

    fn precision(&self) -> (r: T) {
        match self {
            Unequal::Exact(op) => op.precision(),
            Unequal::Tolerant(op) => op.precision(),
        }
    }

    fn call(&self, x: &T, y: &T) -> (r: bool) {
        match self {
            Unequal::Exact(op) => op.call(x, y),
            Unequal::Tolerant(op) => op.call(x, y),
        }
    }
}

/// Builds the relation's operator: the strategy the scalar declares,
/// or an explicit tolerance.
pub trait UnequalOprBuilder<T: RealNumber>: UnequalOpr<T> + Sized {
    fn new() -> (r: Self)
        ensures
            r.tol() == if T::is_tolerant() {
                Some(T::decimal_precision_v())
            } else {
                (None::<int>)
            },
    ;

    fn new_with(precision: T) -> (r: Self)
        requires
            T::in_range(abs_i(precision.v())),
        ensures
            r.tol() == Some(abs_i(precision.v())),
    ;
}

impl<T: RealNumber> UnequalOprBuilder<T> for Unequal<T> {
    fn new() -> (r: Self) {
        Unequal::new()
    }

    fn new_with(precision: T) -> (r: Self) {
        Unequal::new_with(precision)
    }
}

} // verus!

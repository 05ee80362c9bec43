//! The equality relation: exact, or equal within a tolerance.

use vstd::prelude::*;

use crate::comparison::equal_sem;
use crate::comparison::tol_v;
use crate::concept::Arithmetic;
use crate::concept::Precision;
use crate::concept::RealNumber;
use crate::model::abs_i;

verus! {

/// A built operator deciding the relation over the scalar `T`.
pub trait EqualOpr<T: Arithmetic> {
    /// `None`: the exact strategy; `Some(p)`: tolerant with tolerance `p`.
    spec fn tol(&self) -> Option<int>;

    /// The tolerance the operator applies; zero for the exact strategy.
    fn precision(&self) -> (r: T)
        ensures
            r.v() == tol_v(self.tol()),
    ;

    fn call(&self, x: &T, y: &T) -> (r: bool)
        requires
            T::in_range(abs_i(x.v() - y.v())),
        ensures
            r == equal_sem(self.tol(), x.v(), y.v()),
    ;
}

/// The exact strategy.
#[derive(Clone, Copy, Debug, PartialEq, Eq)]
pub struct EqualInt {
}

impl EqualInt {
    pub fn new() -> (r: Self) {
        EqualInt {  }
    }
}

impl<T: Arithmetic> EqualOpr<T> for EqualInt {
    open spec fn tol(&self) -> Option<int> {
        None
    }

    fn precision(&self) -> (r: T) {
        T::zero()
    }

    fn call(&self, x: &T, y: &T) -> (r: bool) {
        x.eq_val(y)
    }
}

/// The tolerant strategy, carrying its nonnegative tolerance.
#[derive(Clone, Copy, Debug)]
pub struct EqualFlt<T> {
    pub precision: T,
}

impl<T: Precision> EqualFlt<T> {
    /// The default tolerance: the scalar's decimal precision.
    pub fn new() -> (r: Self)
        ensures
            r.precision.v() == T::decimal_precision_v(),
    {
        EqualFlt { precision: T::decimal_precision() }
    }

    /// An explicit tolerance, normalized by absolute value.
    pub fn new_with(precision: T) -> (r: Self)
        requires
            T::in_range(abs_i(precision.v())),
        ensures
            r.precision.v() == abs_i(precision.v()),
    {
        let z = T::zero();
        EqualFlt { precision: precision.dist(&z) }
    }
}

impl<T: Arithmetic> EqualOpr<T> for EqualFlt<T> {
    open spec fn tol(&self) -> Option<int> {
        Some(self.precision.v())
    }

    fn precision(&self) -> (r: T) {
        self.precision.dup()
    }

    fn call(&self, x: &T, y: &T) -> (r: bool) {
        let d = x.dist(y);
        d.le_val(&self.precision)
    }
}

/// The builder: picks the strategy the scalar declares.
#[derive(Clone, Copy, Debug)]
pub enum Equal<T> {
    Exact(EqualInt),
    Tolerant(EqualFlt<T>),
}

impl<T: RealNumber> Equal<T> {
    /// Exact for exact scalars; tolerant with the scalar's decimal
    /// precision for scalars that declare a tolerant comparison.
    pub fn new() -> (r: Self)
        ensures
            r.tol() == if T::is_tolerant() {
                Some(T::decimal_precision_v())
            } else {
                (None::<int>)
            },
    {
        if T::tolerant() {
            Equal::Tolerant(EqualFlt::new())
        } else {
            Equal::Exact(EqualInt::new())
        }
    }

    /// Tolerant with the given tolerance, normalized by absolute value.
    pub fn new_with(precision: T) -> (r: Self)
        requires
            T::in_range(abs_i(precision.v())),
        ensures
            r.tol() == Some(abs_i(precision.v())),
    {
        Equal::Tolerant(EqualFlt::new_with(precision))
    }
}

impl<T: Arithmetic> EqualOpr<T> for Equal<T> {
    open spec fn tol(&self) -> Option<int> {
        match self {
            Equal::Exact(_) => None,
            Equal::Tolerant(op) => Some(op.precision.v()),
        }
    }

    fn precision(&self) -> (r: T) {
        match self {
            Equal::Exact(op) => op.precision(),
            Equal::Tolerant(op) => op.precision(),
        }
    }

    fn call(&self, x: &T, y: &T) -> (r: bool) {
        match self {
            Equal::Exact(op) => op.call(x, y),
            Equal::Tolerant(op) => op.call(x, y),
        }
    }
}

/// Builds the relation's operator: the strategy the scalar declares,
/// or an explicit tolerance.
pub trait EqualOprBuilder<T: RealNumber>: EqualOpr<T> + Sized {
    fn new() -> (r: Self)
        ensures
            r.tol() == if T::is_tolerant() {
                Some(T::decimal_precision_v())
            } else {
                (None::<int>)
            },
    ;

    fn new_with(precision: T) -> (r: Self)
        requires
            T::in_range(abs_i(precision.v())),
        ensures
            r.tol() == Some(abs_i(precision.v())),
    ;
}

impl<T: RealNumber> EqualOprBuilder<T> for Equal<T> {
    fn new() -> (r: Self) {
        Equal::new()
    }

    fn new_with(precision: T) -> (r: Self) {
        Equal::new_with(precision)
    }
}

} // verus!

//! The greater-or-equal relation: exact, or greater-or-equal within a tolerance.

use vstd::prelude::*;

use crate::comparison::greater_equal_sem;
use crate::comparison::tol_v;
use crate::concept::Arithmetic;
use crate::concept::Precision;
use crate::concept::RealNumber;
use crate::model::abs_i;

verus! {

/// A built operator deciding the relation over the scalar `T`.
pub trait GreaterEqualOpr<T: Arithmetic> {
    /// `None`: the exact strategy; `Some(p)`: tolerant with tolerance `p`.
    spec fn tol(&self) -> Option<int>;

    /// The tolerance the operator applies; zero for the exact strategy.
    fn precision(&self) -> (r: T)
        ensures
            r.v() == tol_v(self.tol()),
    ;

    fn call(&self, x: &T, y: &T) -> (r: bool)
        requires
            T::in_range(abs_i(x.v() - y.v())),
        ensures
            r == greater_equal_sem(self.tol(), x.v(), y.v()),
    ;
}

/// The exact strategy.
#[derive(Clone, Copy, Debug, PartialEq, Eq)]
pub struct GreaterEqualInt {
}

impl GreaterEqualInt {
    pub fn new() -> (r: Self) {
        GreaterEqualInt {  }
    }
}

impl<T: Arithmetic> GreaterEqualOpr<T> for GreaterEqualInt {
    open spec fn tol(&self) -> Option<int> {
        None
    }

    fn precision(&self) -> (r: T) {
        T::zero()
    }

    fn call(&self, x: &T, y: &T) -> (r: bool) {
        y.le_val(x)
    }
}

/// The tolerant strategy, carrying its nonnegative tolerance.
#[derive(Clone, Copy, Debug)]
pub struct GreaterEqualFlt<T> {
    pub precision: T,
}

impl<T: Precision> GreaterEqualFlt<T> {
    /// The default tolerance: the scalar's decimal precision.
    pub fn new() -> (r: Self)
        ensures
            r.precision.v() == T::decimal_precision_v(),
    {
        GreaterEqualFlt { precision: T::decimal_precision() }
    }

    /// An explicit tolerance, normalized by absolute value.
    pub fn new_with(precision: T) -> (r: Self)
        requires
            T::in_range(abs_i(precision.v())),
        ensures
            r.precision.v() == abs_i(precision.v()),
    {
        let z = T::zero();
        GreaterEqualFlt { precision: precision.dist(&z) }
    }
}

impl<T: Arithmetic> GreaterEqualOpr<T> for GreaterEqualFlt<T> {
    open spec fn tol(&self) -> Option<int> {
        Some(self.precision.v())
    }

    fn precision(&self) -> (r: T) {
        self.precision.dup()
    }

    fn call(&self, x: &T, y: &T) -> (r: bool) {
        if y.lt_val(x) {
            true
        } else {
            let d = y.dist(x);
            d.le_val(&self.precision)
        }
    }
}

/// The builder: picks the strategy the scalar declares.
#[derive(Clone, Copy, Debug)]
pub enum GreaterEqual<T> {
    Exact(GreaterEqualInt),
    Tolerant(GreaterEqualFlt<T>),
}

impl<T: RealNumber> GreaterEqual<T> {
    /// Exact for exact scalars; tolerant with the scalar's decimal
    /// precision for scalars that declare a tolerant comparison.
    pub fn new() -> (r: Self)
        ensures
            r.tol() == if T::is_tolerant() {
                Some(T::decimal_precision_v())
            } else {
                (None::<int>)
            },
    {
        if T::tolerant() {
            GreaterEqual::Tolerant(GreaterEqualFlt::new())
        } else {
            GreaterEqual::Exact(GreaterEqualInt::new())
        }
    }

    /// Tolerant with the given tolerance, normalized by absolute value.
    pub fn new_with(precision: T) -> (r: Self)
        requires
            T::in_range(abs_i(precision.v())),
        ensures
            r.tol() == Some(abs_i(precision.v())),
    {
        GreaterEqual::Tolerant(GreaterEqualFlt::new_with(precision))
    }
}

impl<T: Arithmetic> GreaterEqualOpr<T> for GreaterEqual<T> {
    open spec fn tol(&self) -> Option<int> {
        match self {
            GreaterEqual::Exact(_) => None,
            GreaterEqual::Tolerant(op) => Some(op.precision.v()),
        }
    }

    fn precision(&self) -> (r: T) {
        match self {
            GreaterEqual::Exact(op) => op.precision(),
            GreaterEqual::Tolerant(op) => op.precision(),
        }
    }

    fn call(&self, x: &T, y: &T) -> (r: bool) {
        match self {
            GreaterEqual::Exact(op) => op.call(x, y),
            GreaterEqual::Tolerant(op) => op.call(x, y),
        }
    }
}

/// Builds the relation's operator: the strategy the scalar declares,
/// or an explicit tolerance.
pub trait GreaterEqualOprBuilder<T: RealNumber>: GreaterEqualOpr<T> + Sized {
    fn new() -> (r: Self)
        ensures
            r.tol() == if T::is_tolerant() {
                Some(T::decimal_precision_v())
            } else {
                (None::<int>)
            },
    ;

    fn new_with(precision: T) -> (r: Self)
        requires
            T::in_range(abs_i(precision.v())),
        ensures
            r.tol() == Some(abs_i(precision.v())),
    ;
}

impl<T: RealNumber> GreaterEqualOprBuilder<T> for GreaterEqual<T> {
    fn new() -> (r: Self) {
        GreaterEqual::new()
    }

    fn new_with(precision: T) -> (r: Self) {
        GreaterEqual::new_with(precision)
    }
}

} // verus!

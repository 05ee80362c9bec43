//! The less-or-equal relation: exact, or less-or-equal within a tolerance.

use vstd::prelude::*;

use crate::comparison::less_equal_sem;
use crate::comparison::tol_v;
use crate::concept::Arithmetic;
use crate::concept::Precision;
use crate::concept::RealNumber;
use crate::model::abs_i;

verus! {

/// A built operator deciding the relation over the scalar `T`.
pub trait LessEqualOpr<T: Arithmetic> {
    /// `None`: the exact strategy; `Some(p)`: tolerant with tolerance `p`.
    spec fn tol(&self) -> Option<int>;

    /// The tolerance the operator applies; zero for the exact strategy.
    fn precision(&self) -> (r: T)
        ensures
            r.v() == tol_v(self.tol()),
    ;

    fn call(&self, x: &T, y: &T) -> (r: bool)
        requires
            T::in_range(abs_i(x.v() - y.v())),
        ensures
            r == less_equal_sem(self.tol(), x.v(), y.v()),
    ;
}

/// The exact strategy.
#[derive(Clone, Copy, Debug, PartialEq, Eq)]
pub struct LessEqualInt {
}

impl LessEqualInt {
    pub fn new() -> (r: Self) {
        LessEqualInt {  }
    }
}

impl<T: Arithmetic> LessEqualOpr<T> for LessEqualInt {
    open spec fn tol(&self) -> Option<int> {
        None
    }

    fn precision(&self) -> (r: T) {
        T::zero()
    }

    fn call(&self, x: &T, y: &T) -> (r: bool) {
        x.le_val(y)
    }
}

/// The tolerant strategy, carrying its nonnegative tolerance.
#[derive(Clone, Copy, Debug)]
pub struct LessEqualFlt<T> {
    pub precision: T,
}

impl<T: Precision> LessEqualFlt<T> {
    /// The default tolerance: the scalar's decimal precision.
    pub fn new() -> (r: Self)
        ensures
            r.precision.v() == T::decimal_precision_v(),
    {
        LessEqualFlt { precision: T::decimal_precision() }
    }

    /// An explicit tolerance, normalized by absolute value.
    pub fn new_with(precision: T) -> (r: Self)
        requires
            T::in_range(abs_i(precision.v())),
        ensures
            r.precision.v() == abs_i(precision.v()),
    {
        let z = T::zero();
        LessEqualFlt { precision: precision.dist(&z) }
    }
}

impl<T: Arithmetic> LessEqualOpr<T> for LessEqualFlt<T> {
    open spec fn tol(&self) -> Option<int> {
        Some(self.precision.v())
    }

    fn precision(&self) -> (r: T) {
        self.precision.dup()
    }

    fn call(&self, x: &T, y: &T) -> (r: bool) {
        if x.lt_val(y) {
            true
        } else {
            let d = x.dist(y);
            d.le_val(&self.precision)
        }
    }
}

/// The builder: picks the strategy the scalar declares.
#[derive(Clone, Copy, Debug)]
pub enum LessEqual<T> {
    Exact(LessEqualInt),
    Tolerant(LessEqualFlt<T>),
}

impl<T: RealNumber> LessEqual<T> {
    /// Exact for exact scalars; tolerant with the scalar's decimal
    /// precision for scalars that declare a tolerant comparison.
    pub fn new() -> (r: Self)
        ensures
            r.tol() == if T::is_tolerant() {
                Some(T::decimal_precision_v())
            } else {
                (None::<int>)
            },
    {
        if T::tolerant() {
            LessEqual::Tolerant(LessEqualFlt::new())
        } else {
            LessEqual::Exact(LessEqualInt::new())
        }
    }

    /// Tolerant with the given tolerance, normalized by absolute value.
    pub fn new_with(precision: T) -> (r: Self)
        requires
            T::in_range(abs_i(precision.v())),
        ensures
            r.tol() == Some(abs_i(precision.v())),
    {
        LessEqual::Tolerant(LessEqualFlt::new_with(precision))
    }
}

impl<T: Arithmetic> LessEqualOpr<T> for LessEqual<T> {
    open spec fn tol(&self) -> Option<int> {
        match self {
            LessEqual::Exact(_) => None,
            LessEqual::Tolerant(op) => Some(op.precision.v()),
        }
    }

    fn precision(&self) -> (r: T) {
        match self {
            LessEqual::Exact(op) => op.precision(),
            LessEqual::Tolerant(op) => op.precision(),
        }
    }

    fn call(&self, x: &T, y: &T) -> (r: bool) {
        match self {
            LessEqual::Exact(op) => op.call(x, y),
            LessEqual::Tolerant(op) => op.call(x, y),
        }
    }
}

/// Builds the relation's operator: the strategy the scalar declares,
/// or an explicit tolerance.
pub trait LessEqualOprBuilder<T: RealNumber>: LessEqualOpr<T> + Sized {
    fn new() -> (r: Self)
        ensures
            r.tol() == if T::is_tolerant() {
                Some(T::decimal_precision_v())
            } else {
                (None::<int>)
            },
    ;

    fn new_with(precision: T) -> (r: Self)
        requires
            T::in_range(abs_i(precision.v())),
        ensures
            r.tol() == Some(abs_i(precision.v())),
    ;
}

impl<T: RealNumber> LessEqualOprBuilder<T> for LessEqual<T> {
    fn new() -> (r: Self) {
        LessEqual::new()
    }

    fn new_with(precision: T) -> (r: Self) {
        LessEqual::new_with(precision)
    }
}

} // verus!

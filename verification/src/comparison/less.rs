//! The strict less-than relation: exact, or less within a tolerance.

use vstd::prelude::*;

use crate::comparison::less_sem;
use crate::comparison::tol_v;
use crate::concept::Arithmetic;
use crate::concept::Precision;
use crate::concept::RealNumber;
use crate::model::abs_i;

verus! {

/// A built operator deciding the relation over the scalar `T`.
pub trait LessOpr<T: Arithmetic> {
    /// `None`: the exact strategy; `Some(p)`: tolerant with tolerance `p`.
    spec fn tol(&self) -> Option<int>;

    /// The tolerance the operator applies; zero for the exact strategy.
    fn precision(&self) -> (r: T)
        ensures
            r.v() == tol_v(self.tol()),
    ;

    fn call(&self, x: &T, y: &T) -> (r: bool)
        requires
            T::in_range(abs_i(x.v() - y.v())),
        ensures
            r == less_sem(self.tol(), x.v(), y.v()),
    ;
}

/// The exact strategy.
#[derive(Clone, Copy, Debug, PartialEq, Eq)]
pub struct LessInt {
}

impl LessInt {
    pub fn new() -> (r: Self) {
        LessInt {  }
    }
}

impl<T: Arithmetic> LessOpr<T> for LessInt {
    open spec fn tol(&self) -> Option<int> {
        None
    }

    fn precision(&self) -> (r: T) {
        T::zero()
    }

    fn call(&self, x: &T, y: &T) -> (r: bool) {
        x.lt_val(y)
    }
}

/// The tolerant strategy, carrying its nonnegative tolerance.
#[derive(Clone, Copy, Debug)]
pub struct LessFlt<T> {
    pub precision: T,
}

impl<T: Precision> LessFlt<T> {
    /// The default tolerance: the scalar's decimal precision.
    pub fn new() -> (r: Self)
        ensures
            r.precision.v() == T::decimal_precision_v(),
    {
        LessFlt { precision: T::decimal_precision() }
    }

    /// An explicit tolerance, normalized by absolute value.
    pub fn new_with(precision: T) -> (r: Self)
        requires
            T::in_range(abs_i(precision.v())),
        ensures
            r.precision.v() == abs_i(precision.v()),
    {
        let z = T::zero();
        LessFlt { precision: precision.dist(&z) }
    }
}

impl<T: Arithmetic> LessOpr<T> for LessFlt<T> {
    open spec fn tol(&self) -> Option<int> {
        Some(self.precision.v())
    }

    fn precision(&self) -> (r: T) {
        self.precision.dup()
    }

    fn call(&self, x: &T, y: &T) -> (r: bool) {
        if y.lt_val(x) {
            false
        } else {
            let d = y.dist(x);
            self.precision.le_val(&d)
        }
    }
}

/// The builder: picks the strategy the scalar declares.
#[derive(Clone, Copy, Debug)]
pub enum Less<T> {
    Exact(LessInt),
    Tolerant(LessFlt<T>),
}

impl<T: RealNumber> Less<T> {
    /// Exact for exact scalars; tolerant with the scalar's decimal
    /// precision for scalars that declare a tolerant comparison.
    pub fn new() -> (r: Self)
        ensures
            r.tol() == if T::is_tolerant() {
                Some(T::decimal_precision_v())
            } else {
                (None::<int>)
            },
    {
        if T::tolerant() {
            Less::Tolerant(LessFlt::new())
        } else {
            Less::Exact(LessInt::new())
        }
    }

    /// An explicit tolerance takes effect only on scalars that declare
    /// tolerant comparison; exact scalars keep the exact strict order.
    pub fn new_with(precision: T) -> (r: Self)
        requires
            T::in_range(abs_i(precision.v())),
        ensures
            r.tol() == if T::is_tolerant() {
                Some(abs_i(precision.v()))
            } else {
                (None::<int>)
            },
    {
        if T::tolerant() {
            Less::Tolerant(LessFlt::new_with(precision))
        } else {
            Less::Exact(LessInt::new())
        }
    }
}

impl<T: Arithmetic> LessOpr<T> for Less<T> {
    open spec fn tol(&self) -> Option<int> {
        match self {
            Less::Exact(_) => None,
            Less::Tolerant(op) => Some(op.precision.v()),
        }
    }

    fn precision(&self) -> (r: T) {
        match self {
            Less::Exact(op) => op.precision(),
            Less::Tolerant(op) => op.precision(),
        }
    }

    fn call(&self, x: &T, y: &T) -> (r: bool) {
        match self {
            Less::Exact(op) => op.call(x, y),
            Less::Tolerant(op) => op.call(x, y),
        }
    }
}

/// Builds the relation's operator: the strategy the scalar declares,
/// or an explicit tolerance, which takes effect only on scalars that
/// declare tolerant comparison.
pub trait LessOprBuilder<T: RealNumber>: LessOpr<T> + Sized {
    fn new() -> (r: Self)
        ensures
            r.tol() == if T::is_tolerant() {
                Some(T::decimal_precision_v())
            } else {
                (None::<int>)
            },
    ;

    fn new_with(precision: T) -> (r: Self)
        requires
            T::in_range(abs_i(precision.v())),
        ensures
            r.tol() == if T::is_tolerant() {
                Some(abs_i(precision.v()))
            } else {
                (None::<int>)
            },
    ;
}

impl<T: RealNumber> LessOprBuilder<T> for Less<T> {
    fn new() -> (r: Self) {
        Less::new()
    }

    fn new_with(precision: T) -> (r: Self) {
        Less::new_with(precision)
    }
}

} // verus!

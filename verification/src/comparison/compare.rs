//! The three-way comparison: an ordering, with equality decided exactly
//! or within a tolerance.  On the total scalars of this library an
//! answer always exists; `None` is reserved for unordered pairs, which
//! only a scalar with a not-a-number value could produce.

use vstd::prelude::*;

use crate::comparison::compare_sem;
use crate::comparison::equal::EqualFlt;
use crate::comparison::equal::EqualOpr;
use crate::comparison::tol_v;
use crate::concept::Arithmetic;
use crate::concept::Precision;
use crate::concept::RealNumber;
use crate::model::abs_i;

verus! {

/// A built three-way comparison operator over the scalar `T`.
pub trait CompareOpr<T: Arithmetic> {
    /// `None`: the exact strategy; `Some(p)`: tolerant with tolerance `p`.
    spec fn tol(&self) -> Option<int>;

    /// The tolerance the operator applies; zero for the exact strategy.
    fn precision(&self) -> (r: T)
        ensures
            r.v() == tol_v(self.tol()),
    ;

    fn call(&self, x: &T, y: &T) -> (r: Option<core::cmp::Ordering>)
        requires
            T::in_range(abs_i(x.v() - y.v())),
        ensures
            r == compare_sem(self.tol(), x.v(), y.v()),
    ;
}

/// The exact strategy: the order of the numerators.
#[derive(Clone, Copy, Debug, PartialEq, Eq)]
pub struct CompareInt {
}

impl CompareInt {
    pub fn new() -> (r: Self) {
        CompareInt {  }
    }
}

impl<T: Arithmetic> CompareOpr<T> for CompareInt {
    open spec fn tol(&self) -> Option<int> {
        None
    }

    fn precision(&self) -> (r: T) {
        T::zero()
    }

    fn call(&self, x: &T, y: &T) -> (r: Option<core::cmp::Ordering>) {
        if x.eq_val(y) {
            Some(core::cmp::Ordering::Equal)
        } else if x.lt_val(y) {
            Some(core::cmp::Ordering::Less)
        } else {
            Some(core::cmp::Ordering::Greater)
        }
    }
}

/// The tolerant strategy: equal within the tolerance of its equality
/// operator, otherwise ordered exactly.
#[derive(Clone, Copy, Debug)]
pub struct CompareFlt<T> {
    pub eq: EqualFlt<T>,
}

impl<T: Precision> CompareFlt<T> {
    /// The default tolerance: the scalar's decimal precision.
    pub fn new() -> (r: Self)
        ensures
            r.eq.precision.v() == T::decimal_precision_v(),
    {
        CompareFlt { eq: EqualFlt::new() }
    }

    /// An explicit tolerance, normalized by absolute value.
    pub fn new_with(precision: T) -> (r: Self)
        requires
            T::in_range(abs_i(precision.v())),
        ensures
            r.eq.precision.v() == abs_i(precision.v()),
    {
        CompareFlt { eq: EqualFlt::new_with(precision) }
    }
}

impl<T: Arithmetic> CompareOpr<T> for CompareFlt<T> {
    open spec fn tol(&self) -> Option<int> {
        Some(self.eq.precision.v())
    }

    fn precision(&self) -> (r: T) {
        self.eq.precision.dup()
    }

    fn call(&self, x: &T, y: &T) -> (r: Option<core::cmp::Ordering>) {
        if self.eq.call(x, y) {
            Some(core::cmp::Ordering::Equal)
        } else if x.lt_val(y) {
            Some(core::cmp::Ordering::Less)
        } else {
            Some(core::cmp::Ordering::Greater)
        }
    }
}

/// The builder: picks the strategy the scalar declares.
#[derive(Clone, Copy, Debug)]
pub enum Compare<T> {
    Exact(CompareInt),
    Tolerant(CompareFlt<T>),
}

impl<T: RealNumber> Compare<T> {
    /// Exact for exact scalars; tolerant with the scalar's decimal
    /// precision for scalars that declare a tolerant comparison.
    pub fn new() -> (r: Self)
        ensures
            r.tol() == if T::is_tolerant() {
                Some(T::decimal_precision_v())
            } else {
                (None::<int>)
            },
    {
        if T::tolerant() {
            Compare::Tolerant(CompareFlt::new())
        } else {
            Compare::Exact(CompareInt::new())
        }
    }

    /// Tolerant with the given tolerance, normalized by absolute value.
    pub fn new_with(precision: T) -> (r: Self)
        requires
            T::in_range(abs_i(precision.v())),
        ensures
            r.tol() == Some(abs_i(precision.v())),
    {
        Compare::Tolerant(CompareFlt::new_with(precision))
    }
}

impl<T: Arithmetic> CompareOpr<T> for Compare<T> {
    open spec fn tol(&self) -> Option<int> {
        match self {
            Compare::Exact(_) => None,
            Compare::Tolerant(op) => Some(op.eq.precision.v()),
        }
    }

    fn precision(&self) -> (r: T) {
        match self {
            Compare::Exact(op) => op.precision(),
            Compare::Tolerant(op) => op.precision(),
        }
    }

    fn call(&self, x: &T, y: &T) -> (r: Option<core::cmp::Ordering>) {
        match self {
            Compare::Exact(op) => op.call(x, y),
            Compare::Tolerant(op) => op.call(x, y),
        }
    }
}

/// Builds the relation's operator: the strategy the scalar declares,
/// or an explicit tolerance.
pub trait CompareOprBuilder<T: RealNumber>: CompareOpr<T> + Sized {
    fn new() -> (r: Self)
        ensures
            r.tol() == if T::is_tolerant() {
                Some(T::decimal_precision_v())
            } else {
                (None::<int>)
            },
    ;

    fn new_with(precision: T) -> (r: Self)
        requires
            T::in_range(abs_i(precision.v())),
        ensures
            r.tol() == Some(abs_i(precision.v())),
    ;
}

impl<T: RealNumber> CompareOprBuilder<T> for Compare<T> {
    fn new() -> (r: Self) {
        Compare::new()
    }

    fn new_with(precision: T) -> (r: Self) {
        Compare::new_with(precision)
    }
}

} // verus!

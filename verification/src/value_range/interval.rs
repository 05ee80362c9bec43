//! Interval endpoints: open or closed, at the type level and as a
//! runtime value, each handing out the comparison operator that decides
//! whether a value lies inside its bound.

use vstd::prelude::*;

use crate::comparison::greater::Greater;
use crate::comparison::greater::GreaterOpr;
use crate::comparison::greater_equal::GreaterEqual;
use crate::comparison::greater_equal::GreaterEqualOpr;
use crate::comparison::less::Less;
use crate::comparison::less::LessOpr;
use crate::comparison::less_equal::LessEqual;
use crate::comparison::less_equal::LessEqualOpr;
use crate::comparison::greater_equal_sem;
use crate::comparison::greater_sem;
use crate::comparison::less_equal_sem;
use crate::comparison::less_sem;
use crate::concept::Arithmetic;
use crate::concept::RealNumber;
use crate::model::abs_i;

verus! {

/// The tolerance the default comparison builders apply on the scalar.
pub open spec fn default_tol<T: RealNumber>() -> Option<int> {
    if T::is_tolerant() {
        Some(T::decimal_precision_v())
    } else {
        None
    }
}

/// What a lower bound asks of bound and value: strictly below for an
/// open end, at-or-below for a closed one.
pub open spec fn lb_sem(strict: bool, t: Option<int>, x: int, y: int) -> bool {
    if strict {
        less_sem(t, x, y)
    } else {
        less_equal_sem(t, x, y)
    }
}

/// What an upper bound asks of value and bound, mirrored.
pub open spec fn ub_sem(strict: bool, t: Option<int>, x: int, y: int) -> bool {
    if strict {
        greater_sem(t, x, y)
    } else {
        greater_equal_sem(t, x, y)
    }
}

/// A built bound-comparison operator: one of the four order relations.
pub enum BoundOpr<T> {
    Below(Less<T>),
    AtOrBelow(LessEqual<T>),
    Above(Greater<T>),
    AtOrAbove(GreaterEqual<T>),
}

impl<T: Arithmetic> BoundOpr<T> {
    /// The relation the operator decides, over numerators.
    pub open spec fn sem(&self, x: int, y: int) -> bool {
        match self {
            BoundOpr::Below(op) => less_sem(op.tol(), x, y),
            BoundOpr::AtOrBelow(op) => less_equal_sem(op.tol(), x, y),
            BoundOpr::Above(op) => greater_sem(op.tol(), x, y),
            BoundOpr::AtOrAbove(op) => greater_equal_sem(op.tol(), x, y),
        }
    }

    pub fn call(&self, x: &T, y: &T) -> (r: bool)
        requires
            T::in_range(abs_i(x.v() - y.v())),
        ensures
            r == self.sem(x.v(), y.v()),
    {
        match self {
            BoundOpr::Below(op) => op.call(x, y),
            BoundOpr::AtOrBelow(op) => op.call(x, y),
            BoundOpr::Above(op) => op.call(x, y),
            BoundOpr::AtOrAbove(op) => op.call(x, y),
        }
    }
}

/// An interval endpoint kind, at the type level.
pub trait IntervalType: Sized {
    /// Whether the endpoint excludes its bound.
    spec fn strict() -> bool;

    fn lb_sign() -> &'static str;

    fn ub_sign() -> &'static str;

    /// The operator deciding the lower bound, at the scalar's default
    /// tolerance.
    fn lb_op<T: RealNumber>() -> BoundOpr<T>;

    /// The operator deciding the upper bound, at the scalar's default
    /// tolerance.
    fn ub_op<T: RealNumber>() -> BoundOpr<T>;
}

/// The open endpoint: the bound itself lies outside.
#[derive(Clone, Copy, Debug, PartialEq, Eq, Structural)]
pub struct Open {
}

impl IntervalType for Open {
    open spec fn strict() -> bool {
        true
    }

    fn lb_sign() -> &'static str {
        "("
    }

    fn ub_sign() -> &'static str {
        ")"
    }

    fn lb_op<T: RealNumber>() -> (r: BoundOpr<T>) {
        BoundOpr::Below(Less::new())
    }

    fn ub_op<T: RealNumber>() -> (r: BoundOpr<T>) {
        BoundOpr::Above(Greater::new())
    }
}

/// The closed endpoint: the bound itself lies inside.
#[derive(Clone, Copy, Debug, PartialEq, Eq, Structural)]
pub struct Closed {
}

impl IntervalType for Closed {
    open spec fn strict() -> bool {
        false
    }

    fn lb_sign() -> &'static str {
        "["
    }

    fn ub_sign() -> &'static str {
        "]"
    }

    fn lb_op<T: RealNumber>() -> (r: BoundOpr<T>) {
        BoundOpr::AtOrBelow(LessEqual::new())
    }

    fn ub_op<T: RealNumber>() -> (r: BoundOpr<T>) {
        BoundOpr::AtOrAbove(GreaterEqual::new())
    }
}

/// The endpoint kind a union of two intervals takes at a shared bound:
/// closed absorbs open.
pub trait Union<Rhs: IntervalType>: IntervalType {
    type Result: IntervalType;
}

impl Union<Open> for Open {
    type Result = Open;
}

impl Union<Closed> for Open {
    type Result = Closed;
}

impl<I: IntervalType> Union<I> for Closed {
    type Result = Closed;
}

/// The endpoint kind an intersection takes: open absorbs closed.
pub trait Intersect<Rhs: IntervalType>: IntervalType {
    type Result: IntervalType;
}

impl<I: IntervalType> Intersect<I> for Open {
    type Result = Open;
}

impl Intersect<Open> for Closed {
    type Result = Open;
}

impl Intersect<Closed> for Closed {
    type Result = Closed;
}


/// An interval endpoint kind, as a runtime value.
#[derive(Clone, Copy, Debug, PartialEq, Eq, Structural)]
pub enum Interval {
    Open,
    Closed,
}

impl Interval {
    pub fn lb_sign(&self) -> &'static str {
        match self {
            Interval::Open => "(",
            Interval::Closed => "[",
        }
    }

    pub fn ub_sign(&self) -> &'static str {
        match self {
            Interval::Open => ")",
            Interval::Closed => "]",
        }
    }

    /// Closed absorbs open at a shared bound of a union.
    pub fn union(self, rhs: Self) -> (r: Self)
        ensures
            r == if self == Interval::Closed || rhs == Interval::Closed {
                Interval::Closed
            } else {
                Interval::Open
            },
    {
        if self == Interval::Closed || rhs == Interval::Closed {
            Interval::Closed
        } else {
            Interval::Open
        }
    }

    /// Open absorbs closed at a shared bound of an intersection.
    pub fn intersect(self, rhs: Self) -> (r: Self)
        ensures
            r == if self == Interval::Open || rhs == Interval::Open {
                Interval::Open
            } else {
                Interval::Closed
            },
    {
        if self == Interval::Open || rhs == Interval::Open {
            Interval::Open
        } else {
            Interval::Closed
        }
    }

    /// Whether this endpoint excludes its bound.
    pub open spec fn strict(self) -> bool {
        self == Interval::Open
    }

    /// The operator deciding the lower bound, at the scalar's default
    /// tolerance.
    pub fn lb_op<T: RealNumber>(self) -> (r: BoundOpr<T>)
        ensures
            forall|x: int, y: int| #[trigger]
                r.sem(x, y) == lb_sem(self.strict(), default_tol::<T>(), x, y),
    {
        match self {
            Interval::Open => BoundOpr::Below(Less::new()),
            Interval::Closed => BoundOpr::AtOrBelow(LessEqual::new()),
        }
    }

    /// The lower-bound operator with an explicit tolerance; the strict
    /// form keeps exact comparison on exact scalars.
    pub fn lb_op_with<T: RealNumber>(self, precision: T) -> (r: BoundOpr<T>)
        requires
            T::in_range(abs_i(precision.v())),
        ensures
            self == Interval::Open ==> forall|x: int, y: int| #[trigger]
                r.sem(x, y) == lb_sem(
                    true,
                    if T::is_tolerant() {
                        Some(abs_i(precision.v()))
                    } else {
                        (None::<int>)
                    },
                    x,
                    y,
                ),
            self == Interval::Closed ==> forall|x: int, y: int| #[trigger]
                r.sem(x, y) == lb_sem(false, Some(abs_i(precision.v())), x, y),
    {
        match self {
            Interval::Open => BoundOpr::Below(Less::new_with(precision)),
            Interval::Closed => BoundOpr::AtOrBelow(LessEqual::new_with(precision)),
        }
    }

    /// The operator deciding the upper bound, at the scalar's default
    /// tolerance.
    pub fn ub_op<T: RealNumber>(self) -> (r: BoundOpr<T>)
        ensures
            forall|x: int, y: int| #[trigger]
                r.sem(x, y) == ub_sem(self.strict(), default_tol::<T>(), x, y),
    {
        match self {
            Interval::Open => BoundOpr::Above(Greater::new()),
            Interval::Closed => BoundOpr::AtOrAbove(GreaterEqual::new()),
        }
    }

    /// The upper-bound operator with an explicit tolerance.
    pub fn ub_op_with<T: RealNumber>(self, precision: T) -> (r: BoundOpr<T>)
        requires
            T::in_range(abs_i(precision.v())),
        ensures
            self == Interval::Open ==> forall|x: int, y: int| #[trigger]
                r.sem(x, y) == ub_sem(true, Some(abs_i(precision.v())), x, y),
            self == Interval::Closed ==> forall|x: int, y: int| #[trigger]
                r.sem(x, y) == ub_sem(false, Some(abs_i(precision.v())), x, y),
    {
        match self {
            Interval::Open => BoundOpr::Above(Greater::new_with(precision)),
            Interval::Closed => BoundOpr::AtOrAbove(GreaterEqual::new_with(precision)),
        }
    }
}

} // verus!


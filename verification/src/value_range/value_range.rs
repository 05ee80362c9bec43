//! A range of scalar values between two optional bounds, each possibly
//! at infinity and open or closed, compared with the scalar's default
//! comparison operators.

use vstd::prelude::*;

use crate::comparison::equal::Equal;
use crate::comparison::equal::EqualOpr;
use crate::comparison::equal_sem;
use crate::concept::Arithmetic;
use crate::concept::PlusSemiGroup;
use crate::concept::RealNumber;
use crate::model::abs_i;
use crate::value_range::bound::Bound;
use crate::value_range::bound::BoundSide;
use crate::value_range::interval::default_tol;
use crate::value_range::interval::Interval;
use crate::value_range::interval::lb_sem;
use crate::value_range::interval::ub_sem;
use crate::value_range::value_wrapper::add_fin_ok;
use crate::value_range::value_wrapper::add_sem;
use crate::value_range::value_wrapper::Extended;
use crate::value_range::value_wrapper::ValueWrapper;
use crate::value_range::IllegalArgumentError;

verus! {

/// Whether the bounds would leave no value inside: the range is empty
/// unless the lower bound admits the upper value and the upper bound
/// admits the lower value, under the scalar's default tolerance.
pub fn empty<T: RealNumber>(
    lb: &T,
    ub: &T,
    lb_interval: Interval,
    ub_interval: Interval,
) -> (r: bool)
    requires
        T::in_range(abs_i(lb.v() - ub.v())),
    ensures
        r == !(lb_sem(lb_interval.strict(), default_tol::<T>(), lb.v(), ub.v()) && ub_sem(
            ub_interval.strict(),
            default_tol::<T>(),
            ub.v(),
            lb.v(),
        )),
{
    let lo = lb_interval.lb_op();
    let uo = ub_interval.ub_op();
    !lo.call(lb, ub) || !uo.call(ub, lb)
}

/// A range of scalar values.  An absent bound marks a range consumed
/// or never formed on that side.
pub struct ValueRange<T> {
    pub lb: Option<Bound<T>>,
    pub ub: Option<Bound<T>>,
}

/// Whether the range is a single point: both bounds present and
/// closed, both finite, and the two values equal under the scalar's
/// default tolerance.
pub open spec fn fixed_sem<T: RealNumber>(rng: &ValueRange<T>) -> bool {
    match (rng.lb, rng.ub) {
        (Some(l), Some(u)) => l.interval == Interval::Closed && u.interval == Interval::Closed
            && match (l.value, u.value) {
            (ValueWrapper::Value(a), ValueWrapper::Value(b)) => equal_sem(
                default_tol::<T>(),
                a.v(),
                b.v(),
            ),
            _ => false,
        },
        _ => false,
    }
}

/// Whether the difference the point test computes is representable.
pub open spec fn fixed_ok<T: Arithmetic>(rng: &ValueRange<T>) -> bool {
    match (rng.lb, rng.ub) {
        (Some(l), Some(u)) => match (l.value, u.value) {
            (ValueWrapper::Value(a), ValueWrapper::Value(b)) => T::in_range(abs_i(a.v() - b.v())),
            _ => true,
        },
        _ => true,
    }
}

/// The relation between a range and its shift by `d`: both bounds
/// moved by `d`, endpoint kinds and sides kept.
pub open spec fn shifted<T: Arithmetic>(
    old_rng: &ValueRange<T>,
    d: int,
    new_rng: &ValueRange<T>,
) -> bool {
    match (old_rng.lb, old_rng.ub, new_rng.lb, new_rng.ub) {
        (Some(l0), Some(u0), Some(l), Some(u)) => {
            &&& Some(l.value.ext()) == add_sem(l0.value.ext(), Extended::Fin(d))
            &&& l.interval == l0.interval
            &&& l.side == BoundSide::Lower
            &&& Some(u.value.ext()) == add_sem(u0.value.ext(), Extended::Fin(d))
            &&& u.interval == u0.interval
            &&& u.side == BoundSide::Upper
        },
        _ => false,
    }
}

/// Whether shifting both bounds by `d` stays representable.
pub open spec fn shift_ok<T: Arithmetic>(rng: &ValueRange<T>, d: int) -> bool {
    match (rng.lb, rng.ub) {
        (Some(l), Some(u)) => add_fin_ok::<T>(l.value.ext(), Extended::Fin(d)) && add_fin_ok::<T>(
            u.value.ext(),
            Extended::Fin(d),
        ),
        _ => true,
    }
}

impl<T: Arithmetic> ValueRange<T> {
    /// The whole line: closed bounds at the two infinities.
    pub fn new() -> (r: Self)
        ensures
            r.lb matches Some(l) && l.value.ext() == Extended::NegInf && l.interval
                == Interval::Closed && l.side == BoundSide::Lower,
            r.ub matches Some(u) && u.value.ext() == Extended::PosInf && u.interval
                == Interval::Closed && u.side == BoundSide::Upper,
    {
        ValueRange {
            lb: Some(
                Bound {
                    value: ValueWrapper::NegInf,
                    interval: Interval::Closed,
                    side: BoundSide::Lower,
                },
            ),
            ub: Some(
                Bound {
                    value: ValueWrapper::Inf,
                    interval: Interval::Closed,
                    side: BoundSide::Upper,
                },
            ),
        }
    }

    /// Whether both bounds still stand.
    pub fn empty(&self) -> (r: bool)
        ensures
            r == (self.lb is Some && self.ub is Some),
    {
        !self.lb.is_none() && !self.ub.is_none()
    }
}

impl<T: RealNumber> ValueRange<T> {
    /// The range between two finite bounds.  The bounds must leave the
    /// range inhabited: the lower bound admits the upper value and the
    /// upper bound admits the lower value.
    pub fn new_with(lb: T, ub: T, lb_interval: Interval, ub_interval: Interval) -> (r: Self)
        requires
            T::in_range(abs_i(lb.v() - ub.v())),
            lb_sem(lb_interval.strict(), default_tol::<T>(), lb.v(), ub.v()),
            ub_sem(ub_interval.strict(), default_tol::<T>(), ub.v(), lb.v()),
        ensures
            r.lb matches Some(l) && l.value.ext() == Extended::Fin(lb.v()) && l.interval
                == lb_interval && l.side == BoundSide::Lower,
            r.ub matches Some(u) && u.value.ext() == Extended::Fin(ub.v()) && u.interval
                == ub_interval && u.side == BoundSide::Upper,
    {
        ValueRange {
            lb: Some(
                Bound { value: ValueWrapper::Value(lb), interval: lb_interval, side: BoundSide::Lower },
            ),
            ub: Some(
                Bound { value: ValueWrapper::Value(ub), interval: ub_interval, side: BoundSide::Upper },
            ),
        }
    }

    /// Whether the range is a single point under the scalar's default
    /// tolerance.
    pub fn fixed(&self) -> (r: bool)
        requires
            fixed_ok::<T>(self),
        ensures
            r == fixed_sem::<T>(self),
    {
        match (&self.lb, &self.ub) {
            (Some(l), Some(u)) => {
                if l.interval == Interval::Closed && u.interval == Interval::Closed {
                    match (&l.value, &u.value) {
                        (ValueWrapper::Value(a), ValueWrapper::Value(b)) => {
                            let eq = Equal::<T>::new();
                            eq.call(a, b)
                        },
                        _ => false,
                    }
                } else {
                    false
                }
            },
            _ => false,
        }
    }
}

impl<T: PlusSemiGroup> ValueRange<T> {
    /// The range shifted by a scalar: both bounds move together, and
    /// their endpoint kinds stay.  A range missing a bound cannot be
    /// shifted and answers the argument error.
    pub fn add(&self, rhs: &T) -> (r: Result<ValueRange<T>, IllegalArgumentError>)
        requires
            shift_ok::<T>(self, rhs.v()),
        ensures
            r is Ok <==> (self.lb is Some && self.ub is Some),
            r matches Ok(rr) ==> shifted(self, rhs.v(), &rr),
    {
        match (&self.lb, &self.ub) {
            (Some(l), Some(u)) => {
                let shift_lo = ValueWrapper::Value(rhs.dup());
                let shift_hi = ValueWrapper::Value(rhs.dup());
                let lv = l.value.add(&shift_lo);
                let uv = u.value.add(&shift_hi);
                proof {
                    assert(add_sem(l.value.ext(), Extended::Fin(rhs.v())) is Some);
                    assert(add_sem(u.value.ext(), Extended::Fin(rhs.v())) is Some);
                    assert(lv is Ok && uv is Ok);
                }
                match (lv, uv) {
                    (Ok(lw), Ok(uw)) => Ok(
                        ValueRange {
                            lb: Some(
                                Bound { value: lw, interval: l.interval, side: BoundSide::Lower },
                            ),
                            ub: Some(
                                Bound { value: uw, interval: u.interval, side: BoundSide::Upper },
                            ),
                        },
                    ),
                    (_, _) => Err(
                        IllegalArgumentError::new("a bound at infinity refused the shift"),
                    ),
                }
            },
            (_, _) => Err(IllegalArgumentError::new("a consumed range cannot be shifted")),
        }
    }
}

} // verus!

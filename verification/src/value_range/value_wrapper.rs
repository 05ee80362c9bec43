//! A scalar extended with the two infinities: the values a range bound
//! can take.  Arithmetic is total up to the indeterminate forms — the
//! sum of opposite infinities, the quotient of two infinities — which
//! answer the argument error instead.

use vstd::prelude::*;

use crate::concept::Arithmetic;
use crate::concept::PlusGroup;
use crate::concept::PlusSemiGroup;
use crate::concept::TimesGroup;
use crate::concept::TimesSemiGroup;
use crate::model::abs_i;
use crate::model::div_v;
use crate::model::mul_v;
use crate::value_range::IllegalArgumentError;

verus! {

/// The mathematical value of an extended scalar.
pub enum Extended {
    Fin(int),
    PosInf,
    NegInf,
}

/// A scalar value, or one of the two infinities.
pub enum ValueWrapper<T> {
    Value(T),
    Inf,
    NegInf,
}

/// What extended addition answers; `None` for opposite infinities.
pub open spec fn add_sem(a: Extended, b: Extended) -> Option<Extended> {
    match (a, b) {
        (Extended::Fin(x), Extended::Fin(y)) => Some(Extended::Fin(x + y)),
        (Extended::PosInf, Extended::NegInf) => None,
        (Extended::NegInf, Extended::PosInf) => None,
        (Extended::PosInf, _) => Some(Extended::PosInf),
        (_, Extended::PosInf) => Some(Extended::PosInf),
        (Extended::NegInf, _) => Some(Extended::NegInf),
        (_, Extended::NegInf) => Some(Extended::NegInf),
    }
}

/// What extended subtraction answers; `None` for same-sign infinities.
pub open spec fn sub_sem(a: Extended, b: Extended) -> Option<Extended> {
    match (a, b) {
        (Extended::Fin(x), Extended::Fin(y)) => Some(Extended::Fin(x - y)),
        (Extended::PosInf, Extended::PosInf) => None,
        (Extended::NegInf, Extended::NegInf) => None,
        (Extended::PosInf, _) => Some(Extended::PosInf),
        (_, Extended::NegInf) => Some(Extended::PosInf),
        (Extended::NegInf, _) => Some(Extended::NegInf),
        (_, Extended::PosInf) => Some(Extended::NegInf),
    }
}

/// What extended multiplication answers, at scale `s`.  An infinity
/// keeps the factor's sign, a nonnegative finite factor counting as
/// positive; multiplication never fails.
pub open spec fn mul_sem(a: Extended, b: Extended, s: int) -> Option<Extended> {
    match (a, b) {
        (Extended::Fin(x), Extended::Fin(y)) => Some(Extended::Fin(mul_v(x, y, s))),
        (Extended::Fin(x), Extended::PosInf) => Some(
            if x >= 0 {
                Extended::PosInf
            } else {
                Extended::NegInf
            },
        ),
        (Extended::Fin(x), Extended::NegInf) => Some(
            if x >= 0 {
                Extended::NegInf
            } else {
                Extended::PosInf
            },
        ),
        (Extended::PosInf, Extended::Fin(y)) => Some(
            if y >= 0 {
                Extended::PosInf
            } else {
                Extended::NegInf
            },
        ),
        (Extended::NegInf, Extended::Fin(y)) => Some(
            if y >= 0 {
                Extended::NegInf
            } else {
                Extended::PosInf
            },
        ),
        (Extended::PosInf, Extended::PosInf) => Some(Extended::PosInf),
        (Extended::PosInf, Extended::NegInf) => Some(Extended::NegInf),
        (Extended::NegInf, Extended::PosInf) => Some(Extended::NegInf),
        (Extended::NegInf, Extended::NegInf) => Some(Extended::PosInf),
    }
}

/// What extended division answers, at scale `s`: a finite value over an
/// infinity vanishes, an infinity over a finite value keeps the
/// divisor's sign, and two infinities are indeterminate.
pub open spec fn div_sem(a: Extended, b: Extended, s: int) -> Option<Extended> {
    match (a, b) {
        (Extended::Fin(x), Extended::Fin(y)) => Some(Extended::Fin(div_v(x, y, s))),
        (Extended::Fin(_), Extended::PosInf) => Some(Extended::Fin(0)),
        (Extended::Fin(_), Extended::NegInf) => Some(Extended::Fin(0)),
        (Extended::PosInf, Extended::Fin(y)) => Some(
            if y >= 0 {
                Extended::PosInf
            } else {
                Extended::NegInf
            },
        ),
        (Extended::NegInf, Extended::Fin(y)) => Some(
            if y >= 0 {
                Extended::NegInf
            } else {
                Extended::PosInf
            },
        ),
        (_, _) => None,
    }
}

/// The total order of extended values: the infinities flank every
/// finite value.
pub open spec fn cmp_sem(a: Extended, b: Extended) -> core::cmp::Ordering {
    match (a, b) {
        (Extended::Fin(x), Extended::Fin(y)) => {
            if x < y {
                core::cmp::Ordering::Less
            } else if x == y {
                core::cmp::Ordering::Equal
            } else {
                core::cmp::Ordering::Greater
            }
        },
        (Extended::PosInf, Extended::PosInf) => core::cmp::Ordering::Equal,
        (Extended::NegInf, Extended::NegInf) => core::cmp::Ordering::Equal,
        (Extended::PosInf, _) => core::cmp::Ordering::Greater,
        (_, Extended::PosInf) => core::cmp::Ordering::Less,
        (Extended::NegInf, _) => core::cmp::Ordering::Less,
        (_, Extended::NegInf) => core::cmp::Ordering::Greater,
    }
}

/// Whether finite addition at these values stays representable.
pub open spec fn add_fin_ok<T: Arithmetic>(a: Extended, b: Extended) -> bool {
    match (a, b) {
        (Extended::Fin(x), Extended::Fin(y)) => T::in_range(x + y),
        (_, _) => true,
    }
}

/// Whether finite subtraction at these values stays representable.
pub open spec fn sub_fin_ok<T: Arithmetic>(a: Extended, b: Extended) -> bool {
    match (a, b) {
        (Extended::Fin(x), Extended::Fin(y)) => T::in_range(x - y),
        (_, _) => true,
    }
}

/// Whether finite multiplication at these values stays representable.
pub open spec fn mul_fin_ok<T: Arithmetic>(a: Extended, b: Extended) -> bool {
    match (a, b) {
        (Extended::Fin(x), Extended::Fin(y)) => T::in_range(mul_v(x, y, T::scale())),
        (_, _) => true,
    }
}

/// Whether finite division at these values is defined and stays
/// representable.
pub open spec fn div_fin_ok<T: Arithmetic>(a: Extended, b: Extended) -> bool {
    match (a, b) {
        (Extended::Fin(x), Extended::Fin(y)) => y != 0 && T::in_range(div_v(x, y, T::scale())),
        (_, _) => true,
    }
}

impl<T: Arithmetic> ValueWrapper<T> {
    /// The extended value this wrapper stands for.
    pub open spec fn ext(&self) -> Extended {
        match self {
            ValueWrapper::Value(t) => Extended::Fin(t.v()),
            ValueWrapper::Inf => Extended::PosInf,
            ValueWrapper::NegInf => Extended::NegInf,
        }
    }

    /// The finite extended value holding the given scalar.
    pub fn from_value(value: T) -> (r: Self)
        ensures
            r.ext() == Extended::Fin(value.v()),
    {
        ValueWrapper::Value(value)
    }

    /// A wrapper standing for the same extended value.
    pub fn dup(&self) -> (r: Self)
        ensures
            r.ext() == self.ext(),
    {
        match self {
            ValueWrapper::Value(t) => ValueWrapper::Value(t.dup()),
            ValueWrapper::Inf => ValueWrapper::Inf,
            ValueWrapper::NegInf => ValueWrapper::NegInf,
        }
    }

    /// Equality of extended values.
    pub fn eq(&self, rhs: &Self) -> (r: bool)
        ensures
            r == (self.ext() == rhs.ext()),
    {
        match (self, rhs) {
            (ValueWrapper::Value(a), ValueWrapper::Value(b)) => a.eq_val(b),
            (ValueWrapper::Inf, ValueWrapper::Inf) => true,
            (ValueWrapper::NegInf, ValueWrapper::NegInf) => true,
            (_, _) => false,
        }
    }

    /// The order of extended values; an answer always exists, since no
    /// scalar of this library carries a not-a-number.
    pub fn partial_cmp(&self, rhs: &Self) -> (r: Option<core::cmp::Ordering>)
        ensures
            r == Some(cmp_sem(self.ext(), rhs.ext())),
    {
        Some(self.cmp(rhs))
    }

    /// The total order of extended values.
    pub fn cmp(&self, rhs: &Self) -> (r: core::cmp::Ordering)
        ensures
            r == cmp_sem(self.ext(), rhs.ext()),
    {
        match (self, rhs) {
            (ValueWrapper::Value(a), ValueWrapper::Value(b)) => {
                if a.lt_val(b) {
                    core::cmp::Ordering::Less
                } else if a.eq_val(b) {
                    core::cmp::Ordering::Equal
                } else {
                    core::cmp::Ordering::Greater
                }
            },
            (ValueWrapper::Inf, ValueWrapper::Inf) => core::cmp::Ordering::Equal,
            (ValueWrapper::NegInf, ValueWrapper::NegInf) => core::cmp::Ordering::Equal,
            (ValueWrapper::Inf, _) => core::cmp::Ordering::Greater,
            (_, ValueWrapper::Inf) => core::cmp::Ordering::Less,
            (ValueWrapper::NegInf, _) => core::cmp::Ordering::Less,
            (_, ValueWrapper::NegInf) => core::cmp::Ordering::Greater,
        }
    }
}

impl<T: PlusSemiGroup> ValueWrapper<T> {
    /// Extended addition; the sum of opposite infinities is the error.
    pub fn add(&self, rhs: &Self) -> (r: Result<Self, IllegalArgumentError>)
        requires
            add_fin_ok::<T>(self.ext(), rhs.ext()),
        ensures
            match add_sem(self.ext(), rhs.ext()) {
                Some(e) => r matches Ok(w) && w.ext() == e,
                None => r is Err,
            },
    {
        match (self, rhs) {
            (ValueWrapper::Value(a), ValueWrapper::Value(b)) => Ok(
                ValueWrapper::Value(a.add_val(b)),
            ),
            (ValueWrapper::Inf, ValueWrapper::NegInf) => Err(
                IllegalArgumentError::new("the sum of opposite infinities is indeterminate"),
            ),
            (ValueWrapper::NegInf, ValueWrapper::Inf) => Err(
                IllegalArgumentError::new("the sum of opposite infinities is indeterminate"),
            ),
            (ValueWrapper::Inf, _) => Ok(ValueWrapper::Inf),
            (_, ValueWrapper::Inf) => Ok(ValueWrapper::Inf),
            (ValueWrapper::NegInf, _) => Ok(ValueWrapper::NegInf),
            (_, ValueWrapper::NegInf) => Ok(ValueWrapper::NegInf),
        }
    }
}

impl<T: PlusGroup> ValueWrapper<T> {
    /// Extended subtraction; the difference of same-sign infinities is
    /// the error.
    pub fn sub(&self, rhs: &Self) -> (r: Result<Self, IllegalArgumentError>)
        requires
            sub_fin_ok::<T>(self.ext(), rhs.ext()),
        ensures
            match sub_sem(self.ext(), rhs.ext()) {
                Some(e) => r matches Ok(w) && w.ext() == e,
                None => r is Err,
            },
    {
        match (self, rhs) {
            (ValueWrapper::Value(a), ValueWrapper::Value(b)) => Ok(
                ValueWrapper::Value(a.sub_val(b)),
            ),
            (ValueWrapper::Inf, ValueWrapper::Inf) => Err(
                IllegalArgumentError::new("the difference of like infinities is indeterminate"),
            ),
            (ValueWrapper::NegInf, ValueWrapper::NegInf) => Err(
                IllegalArgumentError::new("the difference of like infinities is indeterminate"),
            ),
            (ValueWrapper::Inf, _) => Ok(ValueWrapper::Inf),
            (_, ValueWrapper::NegInf) => Ok(ValueWrapper::Inf),
            (ValueWrapper::NegInf, _) => Ok(ValueWrapper::NegInf),
            (_, ValueWrapper::Inf) => Ok(ValueWrapper::NegInf),
        }
    }
}

impl<T: TimesSemiGroup> ValueWrapper<T> {
    /// Extended multiplication; an infinity takes the finite factor's
    /// sign, a nonnegative factor counting as positive.
    pub fn mul(&self, rhs: &Self) -> (r: Result<Self, IllegalArgumentError>)
        requires
            mul_fin_ok::<T>(self.ext(), rhs.ext()),
        ensures
            match mul_sem(self.ext(), rhs.ext(), T::scale()) {
                Some(e) => r matches Ok(w) && w.ext() == e,
                None => r is Err,
            },
    {
        match (self, rhs) {
            (ValueWrapper::Value(a), ValueWrapper::Value(b)) => Ok(
                ValueWrapper::Value(a.mul_val(b)),
            ),
            (ValueWrapper::Value(a), ValueWrapper::Inf) => {
                let z = T::zero();
                if z.le_val(a) {
                    Ok(ValueWrapper::Inf)
                } else {
                    Ok(ValueWrapper::NegInf)
                }
            },
            (ValueWrapper::Value(a), ValueWrapper::NegInf) => {
                let z = T::zero();
                if z.le_val(a) {
                    Ok(ValueWrapper::NegInf)
                } else {
                    Ok(ValueWrapper::Inf)
                }
            },
            (ValueWrapper::Inf, ValueWrapper::Value(b)) => {
                let z = T::zero();
                if z.le_val(b) {
                    Ok(ValueWrapper::Inf)
                } else {
                    Ok(ValueWrapper::NegInf)
                }
            },
            (ValueWrapper::NegInf, ValueWrapper::Value(b)) => {
                let z = T::zero();
                if z.le_val(b) {
                    Ok(ValueWrapper::NegInf)
                } else {
                    Ok(ValueWrapper::Inf)
                }
            },
            (ValueWrapper::Inf, ValueWrapper::Inf) => Ok(ValueWrapper::Inf),
            (ValueWrapper::Inf, ValueWrapper::NegInf) => Ok(ValueWrapper::NegInf),
            (ValueWrapper::NegInf, ValueWrapper::Inf) => Ok(ValueWrapper::NegInf),
            (ValueWrapper::NegInf, ValueWrapper::NegInf) => Ok(ValueWrapper::Inf),
        }
    }
}

impl<T: TimesGroup> ValueWrapper<T> {
    /// Extended division; the quotient of two infinities is the error,
    /// and a finite value over an infinity vanishes.
    pub fn div(&self, rhs: &Self) -> (r: Result<Self, IllegalArgumentError>)
        requires
            div_fin_ok::<T>(self.ext(), rhs.ext()),
        ensures
            match div_sem(self.ext(), rhs.ext(), T::scale()) {
                Some(e) => r matches Ok(w) && w.ext() == e,
                None => r is Err,
            },
    {
        match (self, rhs) {
            (ValueWrapper::Value(a), ValueWrapper::Value(b)) => Ok(
                ValueWrapper::Value(a.div_val(b)),
            ),
            (ValueWrapper::Value(_), ValueWrapper::Inf) => Ok(ValueWrapper::Value(T::zero())),
            (ValueWrapper::Value(_), ValueWrapper::NegInf) => Ok(ValueWrapper::Value(T::zero())),
            (ValueWrapper::Inf, ValueWrapper::Value(b)) => {
                let z = T::zero();
                if z.le_val(b) {
                    Ok(ValueWrapper::Inf)
                } else {
                    Ok(ValueWrapper::NegInf)
                }
            },
            (ValueWrapper::NegInf, ValueWrapper::Value(b)) => {
                let z = T::zero();
                if z.le_val(b) {
                    Ok(ValueWrapper::NegInf)
                } else {
                    Ok(ValueWrapper::Inf)
                }
            },
            (_, _) => Err(
                IllegalArgumentError::new("the quotient of two infinities is indeterminate"),
            ),
        }
    }
}

} // verus!

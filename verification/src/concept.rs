//! The capability traits every scalar of the library declares itself under.
//!
//! Each trait carries the contract its operations obey, stated over the
//! numerator model of `crate::model`: a scalar is an integer numerator
//! `v()` at the type-wide scale `scale()`, and stands for the real number
//! `v() / scale()`.  Exact integer types have scale 1; the fixed-point
//! decimal scalar has a larger scale.  Splitting the capabilities apart
//! lets an algorithm demand exactly what it uses: unsigned integers join
//! gcd (no subtraction below zero is ever asked of them), while only field
//! scalars join the division-based algorithms.

use vstd::prelude::*;

use crate::model::abs_i;
use crate::model::div_v;
use crate::model::mul_v;
use crate::model::tdiv;
use crate::model::trem;

verus! {

/// A type with additive and multiplicative identities, a total order, and
/// an absolute difference.  This is the least capability every scalar has.
pub trait Arithmetic: Sized {
    /// The numerator of the value at scale `Self::scale()`.
    spec fn v(&self) -> int;

    /// Which numerators the type can represent.
    spec fn in_range(i: int) -> bool;

    /// The type-wide scale: the numerator standing for the real number 1.
    spec fn scale() -> int;

    /// Every value's numerator is representable.
    proof fn v_in_range(&self)
        ensures
            Self::in_range(self.v()),
    ;

    /// The scale is positive and representable, as is zero.
    proof fn range_facts()
        ensures
            Self::scale() >= 1,
            Self::in_range(0),
            Self::in_range(Self::scale()),
    ;

    /// Representable numerators form an interval.
    proof fn in_range_between(lo: int, mid: int, hi: int)
        requires
            Self::in_range(lo),
            Self::in_range(hi),
            lo <= mid <= hi,
        ensures
            Self::in_range(mid),
    ;

    /// The additive identity.
    fn zero() -> (r: Self)
        ensures
            r.v() == 0,
    ;

    /// The multiplicative identity.
    fn one() -> (r: Self)
        ensures
            r.v() == Self::scale(),
    ;

    /// A value with the same numerator as `self`.
    fn dup(&self) -> (r: Self)
        ensures
            r.v() == self.v(),
    ;

    fn eq_val(&self, other: &Self) -> (r: bool)
        ensures
            r == (self.v() == other.v()),
    ;

    fn lt_val(&self, other: &Self) -> (r: bool)
        ensures
            r == (self.v() < other.v()),
    ;

    fn le_val(&self, other: &Self) -> (r: bool)
        ensures
            r == (self.v() <= other.v()),
    ;

    /// The absolute difference of two values.
    fn dist(&self, other: &Self) -> (r: Self)
        requires
            Self::in_range(abs_i(self.v() - other.v())),
        ensures
            r.v() == abs_i(self.v() - other.v()),
    ;
}

/// A scalar whose addition is total on representable sums.
pub trait PlusSemiGroup: Arithmetic {
    fn add_val(&self, other: &Self) -> (r: Self)
        requires
            Self::in_range(self.v() + other.v()),
        ensures
            r.v() == self.v() + other.v(),
    ;
}

/// A scalar with subtraction and negation.
pub trait PlusGroup: PlusSemiGroup {
    fn sub_val(&self, other: &Self) -> (r: Self)
        requires
            Self::in_range(self.v() - other.v()),
        ensures
            r.v() == self.v() - other.v(),
    ;

    fn neg_val(&self) -> (r: Self)
        requires
            Self::in_range(-self.v()),
        ensures
            r.v() == -self.v(),
    ;
}

/// A scalar with multiplication.  The product of two values of scale `s`
/// has numerator `tdiv(a * b, s)`: exact for integer scalars, truncated
/// toward zero for fixed-point scalars.
pub trait TimesSemiGroup: Arithmetic {
    fn mul_val(&self, other: &Self) -> (r: Self)
        requires
            Self::in_range(mul_v(self.v(), other.v(), Self::scale())),
        ensures
            r.v() == mul_v(self.v(), other.v(), Self::scale()),
    ;
}

/// A scalar with division and remainder by nonzero values.
pub trait TimesGroup: TimesSemiGroup {
    fn div_val(&self, other: &Self) -> (r: Self)
        requires
            other.v() != 0,
            Self::in_range(div_v(self.v(), other.v(), Self::scale())),
        ensures
            r.v() == div_v(self.v(), other.v(), Self::scale()),
    ;

    fn rem_val(&self, other: &Self) -> (r: Self)
        requires
            other.v() != 0,
            Self::in_range(trem(self.v(), other.v())),
        ensures
            r.v() == trem(self.v(), other.v()),
    ;
}

/// Addition, subtraction and multiplication, but no general division.
pub trait NumberRing: PlusGroup + TimesSemiGroup {
}

impl<T: PlusGroup + TimesSemiGroup> NumberRing for T {
}

/// All four basic operations.
pub trait NumberField: NumberRing + TimesGroup {
}

impl<T: NumberRing + TimesGroup> NumberField for T {
}

/// A scalar that distinguishes positive and negative values.
pub trait Signed: Arithmetic {
}

/// A scalar whose values are never negative.
pub trait Unsigned: Arithmetic {
    proof fn nonneg(&self)
        ensures
            self.v() >= 0,
    ;
}

/// The precision contract: the smallest distinguishable step and the
/// default tolerance of approximate comparison.
pub trait Precision: Arithmetic {
    /// The numerator of the smallest meaningful step; 0 for exact types.
    spec fn epsilon_v() -> int;

    /// How many decimal digits are reliable, where that is meaningful.
    spec fn decimal_digits_s() -> Option<usize>;

    /// The numerator of the default comparison tolerance.
    spec fn decimal_precision_v() -> int;

    proof fn precision_facts()
        ensures
            Self::epsilon_v() >= 0,
            Self::decimal_precision_v() >= 0,
            Self::in_range(Self::epsilon_v()),
            Self::in_range(Self::decimal_precision_v()),
    ;

    fn epsilon() -> (r: Self)
        ensures
            r.v() == Self::epsilon_v(),
    ;

    fn decimal_digits() -> (r: Option<usize>)
        ensures
            r == Self::decimal_digits_s(),
    ;

    fn decimal_precision() -> (r: Self)
        ensures
            r.v() == Self::decimal_precision_v(),
    ;
}

/// The boundedness contract: `None` means unbounded in that direction.
pub trait Bounded: Arithmetic {
    spec fn min_v() -> Option<int>;

    spec fn max_v() -> Option<int>;

    /// The numerator of the smallest positive representable value.
    spec fn positive_min_v() -> int;

    fn minimum() -> (r: Option<Self>)
        ensures
            r.is_some() == Self::min_v().is_some(),
            r matches Some(m) ==> Self::min_v() == Some(m.v()),
    ;

    fn maximum() -> (r: Option<Self>)
        ensures
            r.is_some() == Self::max_v().is_some(),
            r matches Some(m) ==> Self::max_v() == Some(m.v()),
    ;

    fn positive_minimum() -> (r: Self)
        ensures
            r.v() == Self::positive_min_v(),
            r.v() > 0,
    ;
}

/// A scalar: arithmetic with known bounds.
pub trait Scalar: Arithmetic + Bounded {
}

impl<T: Arithmetic + Bounded> Scalar for T {
}

/// The classification a real-number scalar may put a value under.
#[derive(Clone, Copy, Debug, PartialEq, Eq)]
pub enum RealNumberCategory {
    Nan,
    Infinite,
    NegativeInfinite,
    Zero,
    Subnormal,
    Normal,
}

/// A real-number scalar: bounded, has a precision, names the small
/// constants, and may recognize the special values not-a-number and the
/// two infinities (none of the scalars of this library carries them, so
/// each query answers `None` or `false`).
pub trait RealNumber: Scalar + Precision {
    spec fn has_nan() -> bool;

    spec fn has_inf() -> bool;

    spec fn has_neg_inf() -> bool;

    /// Whether comparison on this scalar defaults to the tolerant strategy.
    spec fn is_tolerant() -> bool;

    fn tolerant() -> (r: bool)
        ensures
            r == Self::is_tolerant(),
    ;

    fn two() -> (r: Self)
        ensures
            r.v() == 2 * Self::scale(),
    ;

    fn three() -> (r: Self)
        ensures
            r.v() == 3 * Self::scale(),
    ;

    fn five() -> (r: Self)
        ensures
            r.v() == 5 * Self::scale(),
    ;

    fn ten() -> (r: Self)
        ensures
            r.v() == 10 * Self::scale(),
    ;

    fn nan() -> (r: Option<Self>)
        ensures
            r.is_some() == Self::has_nan(),
    ;

    fn inf() -> (r: Option<Self>)
        ensures
            r.is_some() == Self::has_inf(),
    ;

    fn neg_inf() -> (r: Option<Self>)
        ensures
            r.is_some() == Self::has_neg_inf(),
    ;

    fn is_nan(&self) -> (r: bool)
        ensures
            !Self::has_nan() ==> r == false,
    ;

    fn is_inf(&self) -> (r: bool)
        ensures
            !Self::has_inf() ==> r == false,
    ;

    fn is_neg_inf(&self) -> (r: bool)
        ensures
            !Self::has_neg_inf() ==> r == false,
    ;

    /// A value is finite when it is none of the three special values.
    fn is_finite(&self) -> (r: bool)
        ensures
            !Self::has_nan() && !Self::has_inf() && !Self::has_neg_inf() ==> r == true,
    ;
}

/// Bitwise structure: parity and shifts, the raw material of the binary
/// gcd algorithm.
pub trait Bits: Arithmetic {
    /// Which shift amounts the type accepts.
    spec fn shift_ok(k: usize) -> bool;

    fn is_even(&self) -> (r: bool)
        ensures
            r == (trem(self.v(), 2) == 0),
    ;

    fn shr_k(&self, k: usize) -> (r: Self)
        requires
            self.v() >= 0,
            Self::shift_ok(k),
        ensures
            r.v() == self.v() / (vstd::arithmetic::power2::pow2(k as nat) as int),
    ;

    fn shl_k(&self, k: usize) -> (r: Self)
        requires
            self.v() >= 0,
            Self::shift_ok(k),
            Self::in_range(self.v() * (vstd::arithmetic::power2::pow2(k as nat) as int)),
        ensures
            r.v() == self.v() * (vstd::arithmetic::power2::pow2(k as nat) as int),
    ;
}

/// An integer scalar: a real-number scalar of scale 1 with bit structure.
pub trait Integer: RealNumber + Bits {
    proof fn integral()
        ensures
            Self::scale() == 1,
    ;
}

/// A signed integer scalar with all four operations.
pub trait IntegerNumber: Integer + NumberField + Signed {
}

impl<T: Integer + NumberField + Signed> IntegerNumber for T {
}

/// An unsigned integer scalar: no negation, but multiplication and
/// division stay available.
pub trait UIntegerNumber: Integer + PlusSemiGroup + TimesGroup + Unsigned {
}

impl<T: Integer + PlusSemiGroup + TimesGroup + Unsigned> UIntegerNumber for T {
}

/// A rational scalar, presented as a numerator and denominator pair.
pub trait RationalNumber<I: Integer>: RealNumber + NumberField {
    fn num(&self) -> &I;

    fn den(&self) -> &I;
}

/// A floating-point-like scalar: a signed field with a precision, the
/// constants e and pi, and rounding toward the integers.
pub trait FloatingNumber: RealNumber + NumberField + Signed {
    /// The numerator of the scalar's approximation of Euler's number.
    spec fn e_v() -> int;

    /// The numerator of the scalar's approximation of pi.
    spec fn pi_v() -> int;

    fn e() -> (r: Self)
        ensures
            r.v() == Self::e_v(),
    ;

    fn pi() -> (r: Self)
        ensures
            r.v() == Self::pi_v(),
    ;

    fn floor(&self) -> (r: Self)
        requires
            Self::in_range((self.v() / Self::scale()) * Self::scale()),
        ensures
            r.v() == (self.v() / Self::scale()) * Self::scale(),
    ;

    fn ceil(&self) -> (r: Self)
        requires
            Self::in_range(-(((-self.v()) / Self::scale()) * Self::scale())),
        ensures
            r.v() == -(((-self.v()) / Self::scale()) * Self::scale()),
    ;

    fn trunc(&self) -> (r: Self)
        ensures
            r.v() == tdiv(self.v(), Self::scale()) * Self::scale(),
    ;

    fn fract(&self) -> (r: Self)
        ensures
            r.v() == self.v() - tdiv(self.v(), Self::scale()) * Self::scale(),
    ;

    /// Rounding half away from zero.
    fn round(&self) -> (r: Self)
        requires
            Self::in_range(crate::model::round_v(self.v(), Self::scale())),
        ensures
            r.v() == crate::model::round_v(self.v(), Self::scale()),
    ;
}

/// A signed integer scalar standing in for the mathematical integers of a
/// wider integer scalar `I`.
pub trait NumericIntegerNumber<I: IntegerNumber>: Integer + Signed {
}

/// The unsigned counterpart of `NumericIntegerNumber`.
pub trait NumericUIntegerNumber<I: UIntegerNumber>: Integer + Unsigned {
}

/// A scalar whose mathematical value may be absent (a symbolic form).
pub trait Variant: Arithmetic {
    type ValueType;

    fn value(&self) -> Option<&Self::ValueType>;

    fn equiv(&self, rhs: &Self::ValueType) -> bool;
}

/// A scalar that always carries its mathematical value.
pub trait Invariant: Arithmetic {
    type ValueType;

    fn value(&self) -> &Self::ValueType;
}

/// Whether a symbolic scalar stands for the given plain value.
pub fn equiv<L: Variant>(lhs: &L, rhs: &L::ValueType) -> bool {
    lhs.equiv(rhs)
}

/// The symbolic positive infinity.
#[derive(Clone, Copy, Debug, PartialEq, Eq)]
pub struct Infinity {
}

/// The symbolic negative infinity.
#[derive(Clone, Copy, Debug, PartialEq, Eq)]
pub struct NegativeInfinity {
}

/// The symbolic not-a-number.
#[derive(Clone, Copy, Debug, PartialEq, Eq)]
pub struct NaN {
}

impl Infinity {
    /// The conventional rendering of the symbol.
    pub fn text(&self) -> String {
        "inf".to_string()
    }
}

impl NegativeInfinity {
    pub fn text(&self) -> String {
        "-inf".to_string()
    }
}

impl NaN {
    pub fn text(&self) -> String {
        "nan".to_string()
    }
}

} // verus!

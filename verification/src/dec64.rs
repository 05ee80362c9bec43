//! `Dec64`: a fixed-point decimal scalar with nine fractional digits.
//!
//! It is the library's floating-point-like scalar: a signed field whose
//! comparisons default to the tolerant strategy, and the scalar on which
//! the series algorithms (exponential, logarithm) run.  A value is an
//! `i64` numerator at scale `10^9`; multiplication and division truncate
//! toward zero at that scale.

use vstd::prelude::*;

use crate::concept::Arithmetic;
use crate::concept::Bounded;
use crate::concept::FloatingNumber;
use crate::concept::Invariant;
use crate::concept::PlusGroup;
use crate::concept::PlusSemiGroup;
use crate::concept::Precision;
use crate::concept::RealNumber;
use crate::concept::Signed;
use crate::concept::TimesGroup;
use crate::concept::TimesSemiGroup;
use crate::model::lemma_floor_from_tdiv;
use crate::model::lemma_tdiv_units;
use crate::model::lemma_trem_cases;

verus! {

/// The scale of `Dec64`: one is `10^9` numerator units.
pub const DEC64_SCALE: i64 = 1_000_000_000;

/// The numerator of the scalar's approximation of Euler's number.
pub const DEC64_E_NUM: i64 = 2_718_281_828;

/// A fixed-point decimal number: `units / 10^9`.
#[derive(Clone, Copy, Debug, PartialEq, Eq, Structural)]
pub struct Dec64 {
    pub num: i64,
}

impl Dec64 {
    /// The value whose numerator at scale `10^9` is `units`.
    pub fn from_units(units: i64) -> (r: Self)
        ensures
            r.v() == units as int,
    {
        Dec64 { num: units }
    }

    /// The value standing for the whole number `n`.
    pub fn from_int(n: i64) -> (r: Self)
        requires
            -9_000_000_000 <= n as int <= 9_000_000_000,
        ensures
            r.v() == n as int * DEC64_SCALE as int,
    {
        Dec64 { num: n * DEC64_SCALE }
    }

    /// The numerator at scale `10^9`.
    pub fn units(&self) -> (r: i64)
        ensures
            r as int == self.v(),
    {
        self.num
    }
}

impl Arithmetic for Dec64 {
    open spec fn v(&self) -> int {
        self.num as int
    }

    open spec fn in_range(i: int) -> bool {
        i64::MIN <= i <= i64::MAX
    }

    open spec fn scale() -> int {
        DEC64_SCALE as int
    }

    proof fn v_in_range(&self) {
    }

    proof fn range_facts() {
    }

    proof fn in_range_between(lo: int, mid: int, hi: int) {
    }

    fn zero() -> (r: Self) {
        Dec64 { num: 0 }
    }

    fn one() -> (r: Self) {
        Dec64 { num: DEC64_SCALE }
    }

    fn dup(&self) -> (r: Self) {
        Dec64 { num: self.num }
    }

    fn eq_val(&self, other: &Self) -> (r: bool) {
        self.num == other.num
    }

    fn lt_val(&self, other: &Self) -> (r: bool) {
        self.num < other.num
    }

    fn le_val(&self, other: &Self) -> (r: bool) {
        self.num <= other.num
    }

    fn dist(&self, other: &Self) -> (r: Self) {
        if self.num >= other.num {
            Dec64 { num: self.num - other.num }
        } else {
            Dec64 { num: other.num - self.num }
        }
    }
}

impl PlusSemiGroup for Dec64 {
    fn add_val(&self, other: &Self) -> (r: Self) {
        Dec64 { num: self.num + other.num }
    }
}

impl PlusGroup for Dec64 {
    fn sub_val(&self, other: &Self) -> (r: Self) {
        Dec64 { num: self.num - other.num }
    }

    fn neg_val(&self) -> (r: Self) {
        Dec64 { num: -self.num }
    }
}

impl TimesSemiGroup for Dec64 {
    fn mul_val(&self, other: &Self) -> (r: Self) {
        proof {
            assert(i128::MIN < (self.num as int) * (other.num as int) < i128::MAX)
                by (nonlinear_arith)
                requires
                    i64::MIN <= self.num as int <= i64::MAX,
                    i64::MIN <= other.num as int <= i64::MAX,
            ;
        }
        let p: i128 = (self.num as i128) * (other.num as i128);
        let q: i128 = p.checked_div(DEC64_SCALE as i128).unwrap();
        Dec64 { num: q as i64 }
    }
}

impl TimesGroup for Dec64 {
    fn div_val(&self, other: &Self) -> (r: Self) {
        let p: i128 = (self.num as i128) * (DEC64_SCALE as i128);
        let q: i128 = p.checked_div(other.num as i128).unwrap();
        Dec64 { num: q as i64 }
    }

    fn rem_val(&self, other: &Self) -> (r: Self) {
        proof {
            lemma_tdiv_units(self.num as int);
            lemma_trem_cases(self.num as int, other.num as int);
        }
        if other.num == -1 {
            Dec64 { num: 0 }
        } else {
            Dec64 { num: self.num.checked_rem(other.num).unwrap() }
        }
    }
}

impl Signed for Dec64 {
}

impl Precision for Dec64 {
    open spec fn epsilon_v() -> int {
        1
    }

    open spec fn decimal_digits_s() -> Option<usize> {
        Some(9)
    }

    open spec fn decimal_precision_v() -> int {
        1
    }

    proof fn precision_facts() {
    }

    fn epsilon() -> (r: Self) {
        Dec64 { num: 1 }
    }

    fn decimal_digits() -> (r: Option<usize>) {
        Some(9)
    }

    fn decimal_precision() -> (r: Self) {
        Dec64 { num: 1 }
    }
}

impl Bounded for Dec64 {
    open spec fn min_v() -> Option<int> {
        Some(i64::MIN as int)
    }

    open spec fn max_v() -> Option<int> {
        Some(i64::MAX as int)
    }

    open spec fn positive_min_v() -> int {
        1
    }

    fn minimum() -> (r: Option<Self>) {
        Some(Dec64 { num: i64::MIN })
    }

    fn maximum() -> (r: Option<Self>) {
        Some(Dec64 { num: i64::MAX })
    }

    fn positive_minimum() -> (r: Self) {
        Dec64 { num: 1 }
    }
}

impl RealNumber for Dec64 {
    open spec fn has_nan() -> bool {
        false
    }

    open spec fn has_inf() -> bool {
        false
    }

    open spec fn has_neg_inf() -> bool {
        false
    }

    open spec fn is_tolerant() -> bool {
        true
    }

    fn tolerant() -> (r: bool) {
        true
    }

    fn two() -> (r: Self) {
        Dec64 { num: 2 * DEC64_SCALE }
    }

    fn three() -> (r: Self) {
        Dec64 { num: 3 * DEC64_SCALE }
    }

    fn five() -> (r: Self) {
        Dec64 { num: 5 * DEC64_SCALE }
    }

    fn ten() -> (r: Self) {
        Dec64 { num: 10 * DEC64_SCALE }
    }

    fn nan() -> (r: Option<Self>) {
        None
    }

    fn inf() -> (r: Option<Self>) {
        None
    }

    fn neg_inf() -> (r: Option<Self>) {
        None
    }

    fn is_nan(&self) -> (r: bool) {
        false
    }

    fn is_inf(&self) -> (r: bool) {
        false
    }

    fn is_neg_inf(&self) -> (r: bool) {
        false
    }

    fn is_finite(&self) -> (r: bool) {
        true
    }
}

impl FloatingNumber for Dec64 {
    open spec fn e_v() -> int {
        DEC64_E_NUM as int
    }

    open spec fn pi_v() -> int {
        3_141_592_654
    }

    fn e() -> (r: Self) {
        Dec64 { num: DEC64_E_NUM }
    }

    fn pi() -> (r: Self) {
        Dec64 { num: 3_141_592_654 }
    }

    fn floor(&self) -> (r: Self) {
        proof {
            lemma_floor_from_tdiv(self.num as int, DEC64_SCALE as int);
            crate::model::lemma_trem_range(self.num as int, DEC64_SCALE as int);
        }
        let q = self.num.checked_div(DEC64_SCALE).unwrap();
        let m = self.num.checked_rem(DEC64_SCALE).unwrap();
        if self.num >= 0 || m == 0 {
            Dec64 { num: q * DEC64_SCALE }
        } else {
            Dec64 { num: (q - 1) * DEC64_SCALE }
        }
    }

    fn ceil(&self) -> (r: Self) {
        proof {
            lemma_floor_from_tdiv(-(self.num as int), DEC64_SCALE as int);
            crate::model::lemma_trem_range(self.num as int, DEC64_SCALE as int);
            crate::model::lemma_tdiv_neg(self.num as int, DEC64_SCALE as int);
        }
        let q = self.num.checked_div(DEC64_SCALE).unwrap();
        let m = self.num.checked_rem(DEC64_SCALE).unwrap();
        if self.num <= 0 || m == 0 {
            Dec64 { num: q * DEC64_SCALE }
        } else {
            Dec64 { num: (q + 1) * DEC64_SCALE }
        }
    }

    fn trunc(&self) -> (r: Self) {
        proof {
            crate::model::lemma_trem_range(self.num as int, DEC64_SCALE as int);
        }
        let q = self.num.checked_div(DEC64_SCALE).unwrap();
        Dec64 { num: q * DEC64_SCALE }
    }

    fn fract(&self) -> (r: Self) {
        proof {
            crate::model::lemma_trem_range(self.num as int, DEC64_SCALE as int);
        }
        let q = self.num.checked_div(DEC64_SCALE).unwrap();
        Dec64 { num: self.num - q * DEC64_SCALE }
    }

    fn round(&self) -> (r: Self) {
        let half: i128 = (DEC64_SCALE as i128) / 2;
        let s: i128 = DEC64_SCALE as i128;
        if self.num >= 0 {
            let q: i128 = ((self.num as i128) + half).checked_div(s).unwrap();
            Dec64 { num: (q * s) as i64 }
        } else {
            let q: i128 = ((-(self.num as i128)) + half).checked_div(s).unwrap();
            Dec64 { num: (-(q * s)) as i64 }
        }
    }
}

impl Invariant for Dec64 {
    type ValueType = Dec64;

    fn value(&self) -> &Self::ValueType {
        self
    }
}

} // verus!

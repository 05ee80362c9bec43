//! The primitive integer scalars of the library: `i64`, `i32` and `u64`.
//!
//! Each implements the capability traits of `crate::concept` at scale 1,
//! so the generic comparison operators and the ordinary algorithms apply
//! to them directly.

use vstd::prelude::*;

use crate::concept::Arithmetic;
use crate::concept::Bits;
use crate::concept::Bounded;
use crate::concept::Integer;
use crate::concept::Invariant;
use crate::concept::PlusGroup;
use crate::concept::PlusSemiGroup;
use crate::concept::Precision;
use crate::concept::RealNumber;
use crate::concept::Signed;
use crate::concept::TimesGroup;
use crate::concept::TimesSemiGroup;
use crate::concept::Unsigned;
use crate::model::lemma_tdiv_nonneg;
use crate::model::lemma_tdiv_units;

verus! {

impl Arithmetic for i64 {
    open spec fn v(&self) -> int {
        *self as int
    }

    open spec fn in_range(i: int) -> bool {
        i64::MIN <= i <= i64::MAX
    }

    open spec fn scale() -> int {
        1
    }

    proof fn v_in_range(&self) {
    }

    proof fn range_facts() {
    }

    proof fn in_range_between(lo: int, mid: int, hi: int) {
    }

    fn zero() -> (r: Self) {
        0
    }

    fn one() -> (r: Self) {
        1
    }

    fn dup(&self) -> (r: Self) {
        *self
    }

    fn eq_val(&self, other: &Self) -> (r: bool) {
        *self == *other
    }

    fn lt_val(&self, other: &Self) -> (r: bool) {
        *self < *other
    }

    fn le_val(&self, other: &Self) -> (r: bool) {
        *self <= *other
    }

    fn dist(&self, other: &Self) -> (r: Self) {
        if *self >= *other {
            *self - *other
        } else {
            *other - *self
        }
    }
}

impl PlusSemiGroup for i64 {
    fn add_val(&self, other: &Self) -> (r: Self) {
        *self + *other
    }
}

impl PlusGroup for i64 {
    fn sub_val(&self, other: &Self) -> (r: Self) {
        *self - *other
    }

    fn neg_val(&self) -> (r: Self) {
        -*self
    }
}

impl TimesSemiGroup for i64 {
    fn mul_val(&self, other: &Self) -> (r: Self) {
        proof {
            lemma_tdiv_units((*self as int) * (*other as int));
        }
        *self * *other
    }
}

impl TimesGroup for i64 {
    fn div_val(&self, other: &Self) -> (r: Self) {
        self.checked_div(*other).unwrap()
    }

    fn rem_val(&self, other: &Self) -> (r: Self) {
        proof {
            lemma_tdiv_units(*self as int);
            crate::model::lemma_trem_cases(*self as int, *other as int);
        }
        if *other == -1 {
            0
        } else {
            self.checked_rem(*other).unwrap()
        }
    }
}

impl Signed for i64 {
}

impl Precision for i64 {
    open spec fn epsilon_v() -> int {
        0
    }

    open spec fn decimal_digits_s() -> Option<usize> {
        None
    }

    open spec fn decimal_precision_v() -> int {
        0
    }

    proof fn precision_facts() {
    }

    fn epsilon() -> (r: Self) {
        0
    }

    fn decimal_digits() -> (r: Option<usize>) {
        None
    }

    fn decimal_precision() -> (r: Self) {
        0
    }
}

impl Bounded for i64 {
    open spec fn min_v() -> Option<int> {
        Some(i64::MIN as int)
    }

    open spec fn max_v() -> Option<int> {
        Some(i64::MAX as int)
    }

    open spec fn positive_min_v() -> int {
        1
    }

    fn minimum() -> (r: Option<Self>) {
        Some(i64::MIN)
    }

    fn maximum() -> (r: Option<Self>) {
        Some(i64::MAX)
    }

    fn positive_minimum() -> (r: Self) {
        1
    }
}

impl RealNumber for i64 {
    open spec fn has_nan() -> bool {
        false
    }

    open spec fn has_inf() -> bool {
        false
    }

    open spec fn has_neg_inf() -> bool {
        false
    }

    open spec fn is_tolerant() -> bool {
        false
    }

    fn tolerant() -> (r: bool) {
        false
    }

    fn two() -> (r: Self) {
        2
    }

    fn three() -> (r: Self) {
        3
    }

    fn five() -> (r: Self) {
        5
    }

    fn ten() -> (r: Self) {
        10
    }

    fn nan() -> (r: Option<Self>) {
        None
    }

    fn inf() -> (r: Option<Self>) {
        None
    }

    fn neg_inf() -> (r: Option<Self>) {
        None
    }

    fn is_nan(&self) -> (r: bool) {
        false
    }

    fn is_inf(&self) -> (r: bool) {
        false
    }

    fn is_neg_inf(&self) -> (r: bool) {
        false
    }

    fn is_finite(&self) -> (r: bool) {
        true
    }
}

impl Bits for i64 {
    open spec fn shift_ok(k: usize) -> bool {
        k < 64
    }

    fn is_even(&self) -> (r: bool) {
        proof {
            lemma_tdiv_units(*self as int);
        }
        if *self == i64::MIN {
            true
        } else {
            self.checked_rem(2).unwrap() == 0
        }
    }

    fn shr_k(&self, k: usize) -> (r: Self) {
        proof {
            vstd::bits::lemma_u64_shr_is_div(*self as u64, k as u64);
            vstd::arithmetic::power2::lemma_pow2_pos(k as nat);
            vstd::arithmetic::div_mod::lemma_div_is_ordered_by_denominator(
                *self as int,
                1,
                vstd::arithmetic::power2::pow2(k as nat) as int,
            );
        }
        (((*self as u64) >> (k as u64)) as i64)
    }

    fn shl_k(&self, k: usize) -> (r: Self) {
        proof {
            vstd::arithmetic::power2::lemma_pow2_pos(k as nat);
            assert(((*self as u64) as int) * (vstd::arithmetic::power2::pow2(k as nat) as int)
                <= i64::MAX as int);
            vstd::bits::lemma_u64_shl_is_mul(*self as u64, k as u64);
        }
        (((*self as u64) << (k as u64)) as i64)
    }
}

impl Integer for i64 {
    proof fn integral() {
    }
}

impl Invariant for i64 {
    type ValueType = i64;

    fn value(&self) -> &Self::ValueType {
        self
    }
}

impl Arithmetic for i32 {
    open spec fn v(&self) -> int {
        *self as int
    }

    open spec fn in_range(i: int) -> bool {
        i32::MIN <= i <= i32::MAX
    }

    open spec fn scale() -> int {
        1
    }

    proof fn v_in_range(&self) {
    }

    proof fn range_facts() {
    }

    proof fn in_range_between(lo: int, mid: int, hi: int) {
    }

    fn zero() -> (r: Self) {
        0
    }

    fn one() -> (r: Self) {
        1
    }

    fn dup(&self) -> (r: Self) {
        *self
    }

    fn eq_val(&self, other: &Self) -> (r: bool) {
        *self == *other
    }

    fn lt_val(&self, other: &Self) -> (r: bool) {
        *self < *other
    }

    fn le_val(&self, other: &Self) -> (r: bool) {
        *self <= *other
    }

    fn dist(&self, other: &Self) -> (r: Self) {
        if *self >= *other {
            *self - *other
        } else {
            *other - *self
        }
    }
}

impl PlusSemiGroup for i32 {
    fn add_val(&self, other: &Self) -> (r: Self) {
        *self + *other
    }
}

impl PlusGroup for i32 {
    fn sub_val(&self, other: &Self) -> (r: Self) {
        *self - *other
    }

    fn neg_val(&self) -> (r: Self) {
        -*self
    }
}

impl TimesSemiGroup for i32 {
    fn mul_val(&self, other: &Self) -> (r: Self) {
        proof {
            lemma_tdiv_units((*self as int) * (*other as int));
        }
        *self * *other
    }
}

impl TimesGroup for i32 {
    fn div_val(&self, other: &Self) -> (r: Self) {
        self.checked_div(*other).unwrap()
    }

    fn rem_val(&self, other: &Self) -> (r: Self) {
        proof {
            lemma_tdiv_units(*self as int);
            crate::model::lemma_trem_cases(*self as int, *other as int);
        }
        if *other == -1 {
            0
        } else {
            self.checked_rem(*other).unwrap()
        }
    }
}

impl Signed for i32 {
}

impl Precision for i32 {
    open spec fn epsilon_v() -> int {
        0
    }

    open spec fn decimal_digits_s() -> Option<usize> {
        None
    }

    open spec fn decimal_precision_v() -> int {
        0
    }

    proof fn precision_facts() {
    }

    fn epsilon() -> (r: Self) {
        0
    }

    fn decimal_digits() -> (r: Option<usize>) {
        None
    }

    fn decimal_precision() -> (r: Self) {
        0
    }
}

impl Bounded for i32 {
    open spec fn min_v() -> Option<int> {
        Some(i32::MIN as int)
    }

    open spec fn max_v() -> Option<int> {
        Some(i32::MAX as int)
    }

    open spec fn positive_min_v() -> int {
        1
    }

    fn minimum() -> (r: Option<Self>) {
        Some(i32::MIN)
    }

    fn maximum() -> (r: Option<Self>) {
        Some(i32::MAX)
    }

    fn positive_minimum() -> (r: Self) {
        1
    }
}

impl RealNumber for i32 {
    open spec fn has_nan() -> bool {
        false
    }

    open spec fn has_inf() -> bool {
        false
    }

    open spec fn has_neg_inf() -> bool {
        false
    }

    open spec fn is_tolerant() -> bool {
        false
    }

    fn tolerant() -> (r: bool) {
        false
    }

    fn two() -> (r: Self) {
        2
    }

    fn three() -> (r: Self) {
        3
    }

    fn five() -> (r: Self) {
        5
    }

    fn ten() -> (r: Self) {
        10
    }

    fn nan() -> (r: Option<Self>) {
        None
    }

    fn inf() -> (r: Option<Self>) {
        None
    }

    fn neg_inf() -> (r: Option<Self>) {
        None
    }

    fn is_nan(&self) -> (r: bool) {
        false
    }

    fn is_inf(&self) -> (r: bool) {
        false
    }

    fn is_neg_inf(&self) -> (r: bool) {
        false
    }

    fn is_finite(&self) -> (r: bool) {
        true
    }
}

impl Bits for i32 {
    open spec fn shift_ok(k: usize) -> bool {
        k < 32
    }

    fn is_even(&self) -> (r: bool) {
        proof {
            lemma_tdiv_units(*self as int);
        }
        if *self == i32::MIN {
            true
        } else {
            self.checked_rem(2).unwrap() == 0
        }
    }

    fn shr_k(&self, k: usize) -> (r: Self) {
        proof {
            vstd::bits::lemma_u32_shr_is_div(*self as u32, k as u32);
            vstd::arithmetic::power2::lemma_pow2_pos(k as nat);
            vstd::arithmetic::div_mod::lemma_div_is_ordered_by_denominator(
                *self as int,
                1,
                vstd::arithmetic::power2::pow2(k as nat) as int,
            );
        }
        (((*self as u32) >> (k as u32)) as i32)
    }

    fn shl_k(&self, k: usize) -> (r: Self) {
        proof {
            vstd::arithmetic::power2::lemma_pow2_pos(k as nat);
            assert(((*self as u32) as int) * (vstd::arithmetic::power2::pow2(k as nat) as int)
                <= i32::MAX as int);
            vstd::bits::lemma_u32_shl_is_mul(*self as u32, k as u32);
        }
        (((*self as u32) << (k as u32)) as i32)
    }
}

impl Integer for i32 {
    proof fn integral() {
    }
}

impl Invariant for i32 {
    type ValueType = i32;

    fn value(&self) -> &Self::ValueType {
        self
    }
}

impl Arithmetic for u64 {
    open spec fn v(&self) -> int {
        *self as int
    }

    open spec fn in_range(i: int) -> bool {
        0 <= i <= u64::MAX as int
    }

    open spec fn scale() -> int {
        1
    }

    proof fn v_in_range(&self) {
    }

    proof fn range_facts() {
    }

    proof fn in_range_between(lo: int, mid: int, hi: int) {
    }

    fn zero() -> (r: Self) {
        0
    }

    fn one() -> (r: Self) {
        1
    }

    fn dup(&self) -> (r: Self) {
        *self
    }

    fn eq_val(&self, other: &Self) -> (r: bool) {
        *self == *other
    }

    fn lt_val(&self, other: &Self) -> (r: bool) {
        *self < *other
    }

    fn le_val(&self, other: &Self) -> (r: bool) {
        *self <= *other
    }

    fn dist(&self, other: &Self) -> (r: Self) {
        if *self >= *other {
            *self - *other
        } else {
            *other - *self
        }
    }
}

impl PlusSemiGroup for u64 {
    fn add_val(&self, other: &Self) -> (r: Self) {
        *self + *other
    }
}

impl TimesSemiGroup for u64 {
    fn mul_val(&self, other: &Self) -> (r: Self) {
        proof {
            lemma_tdiv_units((*self as int) * (*other as int));
        }
        *self * *other
    }
}

impl TimesGroup for u64 {
    fn div_val(&self, other: &Self) -> (r: Self) {
        proof {
            lemma_tdiv_nonneg(*self as int, *other as int);
        }
        *self / *other
    }

    fn rem_val(&self, other: &Self) -> (r: Self) {
        proof {
            lemma_tdiv_nonneg(*self as int, *other as int);
        }
        *self % *other
    }
}

impl Unsigned for u64 {
    proof fn nonneg(&self) {
    }
}

impl Precision for u64 {
    open spec fn epsilon_v() -> int {
        0
    }

    open spec fn decimal_digits_s() -> Option<usize> {
        None
    }

    open spec fn decimal_precision_v() -> int {
        0
    }

    proof fn precision_facts() {
    }

    fn epsilon() -> (r: Self) {
        0
    }

    fn decimal_digits() -> (r: Option<usize>) {
        None
    }

    fn decimal_precision() -> (r: Self) {
        0
    }
}

impl Bounded for u64 {
    open spec fn min_v() -> Option<int> {
        Some(0)
    }

    open spec fn max_v() -> Option<int> {
        Some(u64::MAX as int)
    }

    open spec fn positive_min_v() -> int {
        1
    }

    fn minimum() -> (r: Option<Self>) {
        Some(0)
    }

    fn maximum() -> (r: Option<Self>) {
        Some(u64::MAX)
    }

    fn positive_minimum() -> (r: Self) {
        1
    }
}

impl RealNumber for u64 {
    open spec fn has_nan() -> bool {
        false
    }

    open spec fn has_inf() -> bool {
        false
    }

    open spec fn has_neg_inf() -> bool {
        false
    }

    open spec fn is_tolerant() -> bool {
        false
    }

    fn tolerant() -> (r: bool) {
        false
    }

    fn two() -> (r: Self) {
        2
    }

    fn three() -> (r: Self) {
        3
    }

    fn five() -> (r: Self) {
        5
    }

    fn ten() -> (r: Self) {
        10
    }

    fn nan() -> (r: Option<Self>) {
        None
    }

    fn inf() -> (r: Option<Self>) {
        None
    }

    fn neg_inf() -> (r: Option<Self>) {
        None
    }

    fn is_nan(&self) -> (r: bool) {
        false
    }

    fn is_inf(&self) -> (r: bool) {
        false
    }

    fn is_neg_inf(&self) -> (r: bool) {
        false
    }

    fn is_finite(&self) -> (r: bool) {
        true
    }
}

impl Bits for u64 {
    open spec fn shift_ok(k: usize) -> bool {
        k < 64
    }

    fn is_even(&self) -> (r: bool) {
        proof {
            lemma_tdiv_nonneg(*self as int, 2);
        }
        *self % 2 == 0
    }

    fn shr_k(&self, k: usize) -> (r: Self) {
        proof {
            vstd::bits::lemma_u64_shr_is_div(*self, k as u64);
        }
        *self >> (k as u64)
    }

    fn shl_k(&self, k: usize) -> (r: Self) {
        proof {
            vstd::arithmetic::power2::lemma_pow2_pos(k as nat);
            vstd::bits::lemma_u64_shl_is_mul(*self, k as u64);
        }
        *self << (k as u64)
    }
}

impl Integer for u64 {
    proof fn integral() {
    }
}

impl Invariant for u64 {
    type ValueType = u64;

    fn value(&self) -> &Self::ValueType {
        self
    }
}

} // verus!

//! The arbitrary-precision integer scalars: `ix` wraps a signed big
//! integer and `uix` an unsigned one, and both join the same capability
//! traits as the fixed-width scalars — unbounded, at scale one.
//!
//! The underlying arithmetic is the `num` crate's.  Each call into it
//! goes through a trusted wrapper whose contract states, over the
//! mathematical value of the big integer, what the crate's source
//! shows; everything above the wrappers is verified.

use vstd::prelude::*;

use crate::concept::Arithmetic;
use crate::concept::Bits;
use crate::concept::Bounded;
use crate::concept::Integer;
use crate::concept::Invariant;
use crate::concept::PlusGroup;
use crate::concept::PlusSemiGroup;
use crate::concept::Precision;
use crate::concept::RealNumber;
use crate::concept::Signed;
use crate::concept::TimesGroup;
use crate::concept::TimesSemiGroup;
use crate::concept::Unsigned;
use crate::model::fits_i64;
use crate::model::lemma_tdiv_nonneg;
use crate::model::lemma_tdiv_units;
use crate::model::lemma_trem_cases;
use crate::model::tdiv;
use crate::model::trem;

verus! {

#[verifier::external_type_specification]
#[verifier::external_body]
pub struct ExBigInt(num::BigInt);

#[verifier::external_type_specification]
#[verifier::external_body]
pub struct ExBigUint(num::BigUint);

/// The mathematical value a signed big integer holds.
pub uninterp spec fn big_int_v(x: num::BigInt) -> int;

/// The mathematical value an unsigned big integer holds.
pub uninterp spec fn big_uint_v(x: num::BigUint) -> nat;

/// Relies on `num::BigInt: From<i64>`: the exact value, embedded.
#[verifier::external_body]
fn big_from_i64(v: i64) -> (r: num::BigInt)
    ensures
        big_int_v(r) == v as int,
{
    num::BigInt::from(v)
}

/// Relies on `num::BigInt: Clone`: an equal value.
#[verifier::external_body]
fn big_clone(a: &num::BigInt) -> (r: num::BigInt)
    ensures
        big_int_v(r) == big_int_v(*a),
{
    a.clone()
}

/// Relies on `num::BigInt`'s addition.
#[verifier::external_body]
fn big_add(a: &num::BigInt, b: &num::BigInt) -> (r: num::BigInt)
    ensures
        big_int_v(r) == big_int_v(*a) + big_int_v(*b),
{
    a + b
}

/// Relies on `num::BigInt`'s subtraction.
#[verifier::external_body]
fn big_sub(a: &num::BigInt, b: &num::BigInt) -> (r: num::BigInt)
    ensures
        big_int_v(r) == big_int_v(*a) - big_int_v(*b),
{
    a - b
}

/// Relies on `num::BigInt`'s multiplication.
#[verifier::external_body]
fn big_mul(a: &num::BigInt, b: &num::BigInt) -> (r: num::BigInt)
    ensures
        big_int_v(r) == big_int_v(*a) * big_int_v(*b),
{
    a * b
}

/// Relies on `num::BigInt`'s division, which truncates toward zero.
#[verifier::external_body]
fn big_div(a: &num::BigInt, b: &num::BigInt) -> (r: num::BigInt)
    requires
        big_int_v(*b) != 0,
    ensures
        big_int_v(r) == tdiv(big_int_v(*a), big_int_v(*b)),
{
    a / b
}

/// Relies on `num::BigInt`'s remainder, whose sign follows the
/// dividend, matching the primitive `%`.
#[verifier::external_body]
fn big_rem(a: &num::BigInt, b: &num::BigInt) -> (r: num::BigInt)
    requires
        big_int_v(*b) != 0,
    ensures
        big_int_v(r) == trem(big_int_v(*a), big_int_v(*b)),
{
    a % b
}

/// Relies on `num::BigInt`'s negation.
#[verifier::external_body]
fn big_neg(a: &num::BigInt) -> (r: num::BigInt)
    ensures
        big_int_v(r) == -big_int_v(*a),
{
    -a
}

/// Relies on `num::BigInt`'s equality being value equality.
#[verifier::external_body]
fn big_eq(a: &num::BigInt, b: &num::BigInt) -> (r: bool)
    ensures
        r == (big_int_v(*a) == big_int_v(*b)),
{
    a == b
}

/// Relies on `num::BigInt`'s order being the numeric order.
#[verifier::external_body]
fn big_lt(a: &num::BigInt, b: &num::BigInt) -> (r: bool)
    ensures
        r == (big_int_v(*a) < big_int_v(*b)),
{
    a < b
}

/// Relies on `num::ToPrimitive::to_i64`: the value when it fits, and
/// nothing otherwise.
#[verifier::external_body]
fn big_to_i64(a: &num::BigInt) -> (r: Option<i64>)
    ensures
        r matches Some(w) ==> w as int == big_int_v(*a),
        r is None ==> !fits_i64(big_int_v(*a)),
{
    num::ToPrimitive::to_i64(a)
}

/// Relies on `num::BigUint: From<u64>`: the exact value, embedded.
#[verifier::external_body]
fn ubig_from_u64(v: u64) -> (r: num::BigUint)
    ensures
        big_uint_v(r) == v as nat,
{
    num::BigUint::from(v)
}

/// Relies on `num::BigUint: Clone`: an equal value.
#[verifier::external_body]
fn ubig_clone(a: &num::BigUint) -> (r: num::BigUint)
    ensures
        big_uint_v(r) == big_uint_v(*a),
{
    a.clone()
}

/// Relies on `num::BigUint`'s addition.
#[verifier::external_body]
fn ubig_add(a: &num::BigUint, b: &num::BigUint) -> (r: num::BigUint)
    ensures
        big_uint_v(r) == big_uint_v(*a) + big_uint_v(*b),
{
    a + b
}

/// Relies on `num::BigUint`'s subtraction, which panics below zero:
/// the subtrahend may not exceed the minuend.
#[verifier::external_body]
fn ubig_sub(a: &num::BigUint, b: &num::BigUint) -> (r: num::BigUint)
    requires
        big_uint_v(*b) <= big_uint_v(*a),
    ensures
        big_uint_v(r) == big_uint_v(*a) - big_uint_v(*b),
{
    a - b
}

/// Relies on `num::BigUint`'s multiplication.
#[verifier::external_body]
fn ubig_mul(a: &num::BigUint, b: &num::BigUint) -> (r: num::BigUint)
    ensures
        big_uint_v(r) == big_uint_v(*a) * big_uint_v(*b),
{
    a * b
}

/// Relies on `num::BigUint`'s division: Euclidean on nonnegatives.
#[verifier::external_body]
fn ubig_div(a: &num::BigUint, b: &num::BigUint) -> (r: num::BigUint)
    requires
        big_uint_v(*b) != 0,
    ensures
        big_uint_v(r) == big_uint_v(*a) / big_uint_v(*b),
{
    a / b
}

/// Relies on `num::BigUint`'s remainder: Euclidean on nonnegatives.
#[verifier::external_body]
fn ubig_rem(a: &num::BigUint, b: &num::BigUint) -> (r: num::BigUint)
    requires
        big_uint_v(*b) != 0,
    ensures
        big_uint_v(r) == big_uint_v(*a) % big_uint_v(*b),
{
    a % b
}

/// Relies on `num::BigUint`'s equality being value equality.
#[verifier::external_body]
fn ubig_eq(a: &num::BigUint, b: &num::BigUint) -> (r: bool)
    ensures
        r == (big_uint_v(*a) == big_uint_v(*b)),
{
    a == b
}

/// Relies on `num::BigUint`'s order being the numeric order.
#[verifier::external_body]
fn ubig_lt(a: &num::BigUint, b: &num::BigUint) -> (r: bool)
    ensures
        r == (big_uint_v(*a) < big_uint_v(*b)),
{
    a < b
}

/// Relies on `num::ToPrimitive::to_u64`: the value when it fits, and
/// nothing otherwise.
#[verifier::external_body]
fn ubig_to_u64(a: &num::BigUint) -> (r: Option<u64>)
    ensures
        r matches Some(w) ==> w as nat == big_uint_v(*a),
        r is None ==> big_uint_v(*a) > u64::MAX as nat,
{
    num::ToPrimitive::to_u64(a)
}

/// Relies on `num::BigInt: From<num::BigUint>`: the same value, signed.
#[verifier::external_body]
fn ubig_to_big(a: &num::BigUint) -> (r: num::BigInt)
    ensures
        big_int_v(r) == big_uint_v(*a),
{
    num::BigInt::from(a.clone())
}

/// Relies on `num::BigInt`'s left shift: multiplication by a power of
/// two.
#[verifier::external_body]
fn big_shl(a: &num::BigInt, k: usize) -> (r: num::BigInt)
    requires
        big_int_v(*a) >= 0,
    ensures
        big_int_v(r) == big_int_v(*a) * (vstd::arithmetic::power2::pow2(k as nat) as int),
{
    a << k
}

/// Relies on `num::BigInt`'s right shift, which rounds toward negative
/// infinity: on a nonnegative value, division by a power of two.
#[verifier::external_body]
fn big_shr(a: &num::BigInt, k: usize) -> (r: num::BigInt)
    requires
        big_int_v(*a) >= 0,
    ensures
        big_int_v(r) == big_int_v(*a) / (vstd::arithmetic::power2::pow2(k as nat) as int),
{
    a >> k
}

/// Relies on `num::BigUint`'s left shift.
#[verifier::external_body]
fn ubig_shl(a: &num::BigUint, k: usize) -> (r: num::BigUint)
    ensures
        big_uint_v(r) == big_uint_v(*a) * vstd::arithmetic::power2::pow2(k as nat),
{
    a << k
}

/// Relies on `num::BigUint`'s right shift: division by a power of two.
#[verifier::external_body]
fn ubig_shr(a: &num::BigUint, k: usize) -> (r: num::BigUint)
    ensures
        big_uint_v(r) == big_uint_v(*a) / vstd::arithmetic::power2::pow2(k as nat),
{
    a >> k
}

/// The signed arbitrary-precision integer scalar.
#[allow(non_camel_case_types)]
pub struct ix {
    pub value: num::BigInt,
}

/// The unsigned arbitrary-precision integer scalar.
#[allow(non_camel_case_types)]
pub struct uix {
    pub value: num::BigUint,
}

impl ix {
    /// The scalar holding the given machine integer.
    pub fn from_i64(v: i64) -> (r: Self)
        ensures
            r.v() == v as int,
    {
        ix { value: big_from_i64(v) }
    }

    /// The scalar's value as a machine integer, where it fits.
    pub fn to_i64(&self) -> (r: Option<i64>)
        ensures
            r matches Some(w) ==> w as int == self.v(),
            r is None ==> !fits_i64(self.v()),
    {
        big_to_i64(&self.value)
    }

    /// The same value as an unsigned scalar; the value must not be
    /// negative.
    pub fn from_uix(v: &uix) -> (r: Self)
        ensures
            r.v() == v.v(),
    {
        ix { value: ubig_to_big(&v.value) }
    }
}

impl uix {
    /// The scalar holding the given machine integer.
    pub fn from_u64(v: u64) -> (r: Self)
        ensures
            r.v() == v as int,
    {
        uix { value: ubig_from_u64(v) }
    }

    /// The scalar's value as a machine integer, where it fits.
    pub fn to_u64(&self) -> (r: Option<u64>)
        ensures
            r matches Some(w) ==> w as int == self.v(),
            r is None ==> self.v() > u64::MAX as int,
    {
        ubig_to_u64(&self.value)
    }
}

impl Arithmetic for ix {
    open spec fn v(&self) -> int {
        big_int_v(self.value)
    }

    open spec fn in_range(i: int) -> bool {
        true
    }

    open spec fn scale() -> int {
        1
    }

    proof fn v_in_range(&self) {
    }

    proof fn range_facts() {
    }

    proof fn in_range_between(lo: int, mid: int, hi: int) {
    }

    fn zero() -> (r: Self) {
        ix { value: big_from_i64(0) }
    }

    fn one() -> (r: Self) {
        ix { value: big_from_i64(1) }
    }

    fn dup(&self) -> (r: Self) {
        ix { value: big_clone(&self.value) }
    }

    fn eq_val(&self, other: &Self) -> (r: bool) {
        big_eq(&self.value, &other.value)
    }

    fn lt_val(&self, other: &Self) -> (r: bool) {
        big_lt(&self.value, &other.value)
    }

    fn le_val(&self, other: &Self) -> (r: bool) {
        !big_lt(&other.value, &self.value)
    }

    fn dist(&self, other: &Self) -> (r: Self) {
        if big_lt(&self.value, &other.value) {
            ix { value: big_sub(&other.value, &self.value) }
        } else {
            ix { value: big_sub(&self.value, &other.value) }
        }
    }
}

impl PlusSemiGroup for ix {
    fn add_val(&self, other: &Self) -> (r: Self) {
        ix { value: big_add(&self.value, &other.value) }
    }
}

impl PlusGroup for ix {
    fn sub_val(&self, other: &Self) -> (r: Self) {
        ix { value: big_sub(&self.value, &other.value) }
    }

    fn neg_val(&self) -> (r: Self) {
        ix { value: big_neg(&self.value) }
    }
}

impl TimesSemiGroup for ix {
    fn mul_val(&self, other: &Self) -> (r: Self) {
        proof {
            lemma_tdiv_units(self.v() * other.v());
        }
        ix { value: big_mul(&self.value, &other.value) }
    }
}

impl TimesGroup for ix {
    fn div_val(&self, other: &Self) -> (r: Self) {
        ix { value: big_div(&self.value, &other.value) }
    }

    fn rem_val(&self, other: &Self) -> (r: Self) {
        ix { value: big_rem(&self.value, &other.value) }
    }
}

impl Signed for ix {
}

impl Precision for ix {
    open spec fn epsilon_v() -> int {
        0
    }

    open spec fn decimal_digits_s() -> Option<usize> {
        None
    }

    open spec fn decimal_precision_v() -> int {
        0
    }

    proof fn precision_facts() {
    }

    fn epsilon() -> (r: Self) {
        ix { value: big_from_i64(0) }
    }

    fn decimal_digits() -> (r: Option<usize>) {
        None
    }

    fn decimal_precision() -> (r: Self) {
        ix { value: big_from_i64(0) }
    }
}

impl Bounded for ix {
    open spec fn min_v() -> Option<int> {
        None
    }

    open spec fn max_v() -> Option<int> {
        None
    }

    open spec fn positive_min_v() -> int {
        1
    }

    fn minimum() -> (r: Option<Self>) {
        None
    }

    fn maximum() -> (r: Option<Self>) {
        None
    }

    fn positive_minimum() -> (r: Self) {
        ix { value: big_from_i64(1) }
    }
}

impl RealNumber for ix {
    open spec fn has_nan() -> bool {
        false
    }

    open spec fn has_inf() -> bool {
        false
    }

    open spec fn has_neg_inf() -> bool {
        false
    }

    open spec fn is_tolerant() -> bool {
        false
    }

    fn tolerant() -> (r: bool) {
        false
    }

    fn two() -> (r: Self) {
        ix { value: big_from_i64(2) }
    }

    fn three() -> (r: Self) {
        ix { value: big_from_i64(3) }
    }

    fn five() -> (r: Self) {
        ix { value: big_from_i64(5) }
    }

    fn ten() -> (r: Self) {
        ix { value: big_from_i64(10) }
    }

    fn nan() -> (r: Option<Self>) {
        None
    }

    fn inf() -> (r: Option<Self>) {
        None
    }

    fn neg_inf() -> (r: Option<Self>) {
        None
    }

    fn is_nan(&self) -> (r: bool) {
        false
    }

    fn is_inf(&self) -> (r: bool) {
        false
    }

    fn is_neg_inf(&self) -> (r: bool) {
        false
    }

    fn is_finite(&self) -> (r: bool) {
        true
    }
}

impl Bits for ix {
    open spec fn shift_ok(k: usize) -> bool {
        true
    }

    fn is_even(&self) -> (r: bool) {
        proof {
            lemma_trem_cases(self.v(), 2);
        }
        let two = big_from_i64(2);
        let r = big_rem(&self.value, &two);
        let z = big_from_i64(0);
        big_eq(&r, &z)
    }

    fn shr_k(&self, k: usize) -> (r: Self) {
        ix { value: big_shr(&self.value, k) }
    }

    fn shl_k(&self, k: usize) -> (r: Self) {
        ix { value: big_shl(&self.value, k) }
    }
}

impl Integer for ix {
    proof fn integral() {
    }
}

impl Invariant for ix {
    type ValueType = ix;

    fn value(&self) -> &Self::ValueType {
        self
    }
}

impl Arithmetic for uix {
    open spec fn v(&self) -> int {
        big_uint_v(self.value) as int
    }

    open spec fn in_range(i: int) -> bool {
        i >= 0
    }

    open spec fn scale() -> int {
        1
    }

    proof fn v_in_range(&self) {
    }

    proof fn range_facts() {
    }

    proof fn in_range_between(lo: int, mid: int, hi: int) {
    }

    fn zero() -> (r: Self) {
        uix { value: ubig_from_u64(0) }
    }

    fn one() -> (r: Self) {
        uix { value: ubig_from_u64(1) }
    }

    fn dup(&self) -> (r: Self) {
        uix { value: ubig_clone(&self.value) }
    }

    fn eq_val(&self, other: &Self) -> (r: bool) {
        ubig_eq(&self.value, &other.value)
    }

    fn lt_val(&self, other: &Self) -> (r: bool) {
        ubig_lt(&self.value, &other.value)
    }

    fn le_val(&self, other: &Self) -> (r: bool) {
        !ubig_lt(&other.value, &self.value)
    }

    fn dist(&self, other: &Self) -> (r: Self) {
        if ubig_lt(&self.value, &other.value) {
            uix { value: ubig_sub(&other.value, &self.value) }
        } else {
            uix { value: ubig_sub(&self.value, &other.value) }
        }
    }
}

impl PlusSemiGroup for uix {
    fn add_val(&self, other: &Self) -> (r: Self) {
        uix { value: ubig_add(&self.value, &other.value) }
    }
}

impl TimesSemiGroup for uix {
    fn mul_val(&self, other: &Self) -> (r: Self) {
        proof {
            lemma_tdiv_units(self.v() * other.v());
        }
        uix { value: ubig_mul(&self.value, &other.value) }
    }
}

impl TimesGroup for uix {
    fn div_val(&self, other: &Self) -> (r: Self) {
        proof {
            lemma_tdiv_nonneg(self.v(), other.v());
        }
        uix { value: ubig_div(&self.value, &other.value) }
    }

    fn rem_val(&self, other: &Self) -> (r: Self) {
        proof {
            lemma_tdiv_nonneg(self.v(), other.v());
        }
        uix { value: ubig_rem(&self.value, &other.value) }
    }
}

impl Unsigned for uix {
    proof fn nonneg(&self) {
    }
}

impl Precision for uix {
    open spec fn epsilon_v() -> int {
        0
    }

    open spec fn decimal_digits_s() -> Option<usize> {
        None
    }

    open spec fn decimal_precision_v() -> int {
        0
    }

    proof fn precision_facts() {
    }

    fn epsilon() -> (r: Self) {
        uix { value: ubig_from_u64(0) }
    }

    fn decimal_digits() -> (r: Option<usize>) {
        None
    }

    fn decimal_precision() -> (r: Self) {
        uix { value: ubig_from_u64(0) }
    }
}

impl Bounded for uix {
    open spec fn min_v() -> Option<int> {
        Some(0)
    }

    open spec fn max_v() -> Option<int> {
        None
    }

    open spec fn positive_min_v() -> int {
        1
    }

    fn minimum() -> (r: Option<Self>) {
        Some(uix { value: ubig_from_u64(0) })
    }

    fn maximum() -> (r: Option<Self>) {
        None
    }

    fn positive_minimum() -> (r: Self) {
        uix { value: ubig_from_u64(1) }
    }
}

impl RealNumber for uix {
    open spec fn has_nan() -> bool {
        false
    }

    open spec fn has_inf() -> bool {
        false
    }

    open spec fn has_neg_inf() -> bool {
        false
    }

    open spec fn is_tolerant() -> bool {
        false
    }

    fn tolerant() -> (r: bool) {
        false
    }

    fn two() -> (r: Self) {
        uix { value: ubig_from_u64(2) }
    }

    fn three() -> (r: Self) {
        uix { value: ubig_from_u64(3) }
    }

    fn five() -> (r: Self) {
        uix { value: ubig_from_u64(5) }
    }

    fn ten() -> (r: Self) {
        uix { value: ubig_from_u64(10) }
    }

    fn nan() -> (r: Option<Self>) {
        None
    }

    fn inf() -> (r: Option<Self>) {
        None
    }

    fn neg_inf() -> (r: Option<Self>) {
        None
    }

    fn is_nan(&self) -> (r: bool) {
        false
    }

    fn is_inf(&self) -> (r: bool) {
        false
    }

    fn is_neg_inf(&self) -> (r: bool) {
        false
    }

    fn is_finite(&self) -> (r: bool) {
        true
    }
}

impl Bits for uix {
    open spec fn shift_ok(k: usize) -> bool {
        true
    }

    fn is_even(&self) -> (r: bool) {
        proof {
            lemma_tdiv_nonneg(self.v(), 2);
        }
        let two = ubig_from_u64(2);
        let r = ubig_rem(&self.value, &two);
        let z = ubig_from_u64(0);
        ubig_eq(&r, &z)
    }

    fn shr_k(&self, k: usize) -> (r: Self) {
        uix { value: ubig_shr(&self.value, k) }
    }

    fn shl_k(&self, k: usize) -> (r: Self) {
        uix { value: ubig_shl(&self.value, k) }
    }
}

impl Integer for uix {
    proof fn integral() {
    }
}

impl Invariant for uix {
    type ValueType = uix;

    fn value(&self) -> &Self::ValueType {
        self
    }
}

impl crate::operator::pow::Pow for ix {
    open spec fn pow_ok(v: int, index: int) -> bool {
        index >= 0 && crate::ordinary::pow::pow_ready::<ix>(1, v, index as nat)
    }

    open spec fn pow_v(v: int, index: int) -> int {
        crate::ordinary::pow::pow_acc(1, v, index as nat, 1)
    }

    fn pow(&self, index: i64) -> (r: Self) {
        crate::ordinary::pow::pow_times_semi_group(self, index).unwrap()
    }
}

impl crate::operator::abs::Abs for ix {
    fn abs(&self) -> (r: Self) {
        let z = ix { value: big_from_i64(0) };
        if big_lt(&self.value, &z.value) {
            ix { value: big_neg(&self.value) }
        } else {
            ix { value: big_clone(&self.value) }
        }
    }
}

impl crate::operator::abs::Abs for uix {
    fn abs(&self) -> (r: Self) {
        uix { value: ubig_clone(&self.value) }
    }
}

impl crate::operator::neg::Neg for ix {
    type Output = ix;

    open spec fn neg_ok(v: int) -> bool {
        true
    }

    open spec fn neg_v(v: int) -> int {
        -v
    }

    fn neg(&self) -> (r: Self::Output) {
        ix { value: big_neg(&self.value) }
    }
}

/// Negating an unsigned scalar cannot stay unsigned: the value is
/// promoted to the signed scalar and negated there.
impl crate::operator::neg::Neg for uix {
    type Output = ix;

    open spec fn neg_ok(v: int) -> bool {
        true
    }

    open spec fn neg_v(v: int) -> int {
        -v
    }

    fn neg(&self) -> (r: Self::Output) {
        ix { value: big_neg(&ubig_to_big(&self.value)) }
    }
}

} // verus!

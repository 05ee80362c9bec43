//! The mathematical model shared by every scalar of the library.
//!
//! A scalar value is modelled as an integer numerator at a fixed, type-wide
//! scale: the real number it stands for is `v / scale`.  Exact integer types
//! use scale 1; the fixed-point decimal scalar uses a larger scale.  All
//! contracts of the library are stated over these numerators.

use vstd::prelude::*;

verus! {

/// Absolute value over `int`, as an `int`.
pub open spec fn abs_i(a: int) -> int {
    if a >= 0 {
        a
    } else {
        -a
    }
}

/// Truncating division (rounding toward zero), the semantics of `/` on
/// Rust's primitive integer types.  Meaningful only for `b != 0`.
pub open spec fn tdiv(a: int, b: int) -> int
    recommends
        b != 0,
{
    if (a >= 0) == (b >= 0) {
        abs_i(a) / abs_i(b)
    } else {
        -(abs_i(a) / abs_i(b))
    }
}

/// Truncating remainder, the semantics of `%` on Rust's primitive integer
/// types: `a == tdiv(a, b) * b + trem(a, b)`.
pub open spec fn trem(a: int, b: int) -> int
    recommends
        b != 0,
{
    a - tdiv(a, b) * b
}

/// The numerator of the product of two scalars of scale `s`:
/// `(a / s) * (b / s) == mul_v(a, b, s) / s`, up to truncation.
pub open spec fn mul_v(a: int, b: int, s: int) -> int
    recommends
        s >= 1,
{
    tdiv(a * b, s)
}

/// The numerator of the quotient of two scalars of scale `s`.
pub open spec fn div_v(a: int, b: int, s: int) -> int
    recommends
        s >= 1,
        b != 0,
{
    tdiv(a * s, b)
}

/// The numerator of a value of scale `s` rounded half away from zero to
/// a whole multiple of `s`.
pub open spec fn round_v(a: int, s: int) -> int
    recommends
        s >= 1,
{
    if a >= 0 {
        ((a + s / 2) / s) * s
    } else {
        -((((-a) + s / 2) / s) * s)
    }
}

/// For nonnegative `a` and positive `b`, truncating division is the
/// Euclidean division of the underlying integers.
pub proof fn lemma_tdiv_nonneg(a: int, b: int)
    requires
        a >= 0,
        b > 0,
    ensures
        tdiv(a, b) == a / b,
        trem(a, b) == a % b,
{
    assert(tdiv(a, b) == a / b);
    vstd::arithmetic::div_mod::lemma_fundamental_div_mod(a, b);
}

/// Division by one and by minus one is exact.
pub proof fn lemma_tdiv_units(a: int)
    ensures
        tdiv(a, 1) == a,
        trem(a, 1) == 0,
        tdiv(a, -1) == -a,
        trem(a, -1) == 0,
{
    assert(abs_i(a) / 1 == abs_i(a));
}

/// Whether a numerator is representable in a 64-bit signed word.
pub open spec fn fits_i64(v: int) -> bool {
    i64::MIN <= v <= i64::MAX
}

/// The magnitude of a truncating quotient never exceeds the numerator's.
pub proof fn lemma_tdiv_abs_le(a: int, b: int)
    requires
        b != 0,
    ensures
        abs_i(tdiv(a, b)) <= abs_i(a),
{
    assert(1 * abs_i(a) == abs_i(a)) by (nonlinear_arith);
    vstd::arithmetic::div_mod::lemma_div_multiples_vanish(abs_i(a), 1);
    vstd::arithmetic::div_mod::lemma_div_is_ordered_by_denominator(abs_i(a), 1, abs_i(b));
}

/// The truncating remainder, case by case over the signs of the operands.
pub proof fn lemma_trem_cases(a: int, b: int)
    requires
        b != 0,
    ensures
        a >= 0 && b > 0 ==> trem(a, b) == a % b,
        a >= 0 && b < 0 ==> trem(a, b) == a % (-b),
        a < 0 && b > 0 ==> trem(a, b) == -((-a) % b),
        a < 0 && b < 0 ==> trem(a, b) == -((-a) % (-b)),
{
    if a >= 0 && b > 0 {
        vstd::arithmetic::div_mod::lemma_fundamental_div_mod(a, b);
        let q = a / b;
        assert(tdiv(a, b) == q);
        assert(a == b * q + (a % b));
        assert(q * b == b * q) by (nonlinear_arith);
    } else if a >= 0 && b < 0 {
        vstd::arithmetic::div_mod::lemma_fundamental_div_mod(a, -b);
        let q = a / (-b);
        assert(tdiv(a, b) == -q);
        assert((-q) * b == q * (-b)) by (nonlinear_arith);
    } else if a < 0 && b > 0 {
        vstd::arithmetic::div_mod::lemma_fundamental_div_mod(-a, b);
        let q = (-a) / b;
        assert(tdiv(a, b) == -q);
        assert(-a == b * q + ((-a) % b));
        assert((-q) * b == -(b * q)) by (nonlinear_arith);
    } else {
        vstd::arithmetic::div_mod::lemma_fundamental_div_mod(-a, -b);
        let q = (-a) / (-b);
        assert(tdiv(a, b) == q);
        assert(q * b == -(q * (-b))) by (nonlinear_arith);
    }
}

/// The truncating remainder lies strictly between `-|b|` and `|b|`, and
/// truncating division obeys its own fundamental equation.
pub proof fn lemma_trem_range(a: int, b: int)
    requires
        b != 0,
    ensures
        abs_i(trem(a, b)) < abs_i(b),
        a >= 0 ==> trem(a, b) >= 0,
        a < 0 ==> trem(a, b) <= 0,
        a == tdiv(a, b) * b + trem(a, b),
{
    lemma_trem_cases(a, b);
    if b > 0 {
        vstd::arithmetic::div_mod::lemma_mod_bound(a, b);
        vstd::arithmetic::div_mod::lemma_mod_bound(-a, b);
    } else {
        vstd::arithmetic::div_mod::lemma_mod_bound(a, -b);
        vstd::arithmetic::div_mod::lemma_mod_bound(-a, -b);
    }
}

/// Truncating division and remainder are odd in the numerator.
pub proof fn lemma_tdiv_neg(a: int, b: int)
    requires
        b != 0,
    ensures
        tdiv(-a, b) == -tdiv(a, b),
        trem(-a, b) == -trem(a, b),
{
    assert(abs_i(-a) == abs_i(a));
    assert((-tdiv(a, b)) * b == -(tdiv(a, b) * b)) by (nonlinear_arith);
}

/// Euclidean (flooring) division recovered from truncating division.
pub proof fn lemma_floor_from_tdiv(a: int, b: int)
    requires
        b > 0,
    ensures
        a >= 0 || trem(a, b) == 0 ==> a / b == tdiv(a, b),
        a < 0 && trem(a, b) != 0 ==> a / b == tdiv(a, b) - 1,
{
    let q = tdiv(a, b);
    let r = trem(a, b);
    lemma_trem_range(a, b);
    if a >= 0 || r == 0 {
        assert(a == q * b + r);
        vstd::arithmetic::div_mod::lemma_fundamental_div_mod_converse(a, b, q, r);
    } else {
        assert(a == (q - 1) * b + (r + b)) by (nonlinear_arith)
            requires
                a == q * b + r,
        ;
        vstd::arithmetic::div_mod::lemma_fundamental_div_mod_converse(a, b, q - 1, r + b);
    }
}

/// Scaling numerator and denominator leaves truncating division unchanged.
pub proof fn lemma_tdiv_scale(a: int, b: int, c: int)
    requires
        b > 0,
        c > 0,
    ensures
        tdiv(a * c, b * c) == tdiv(a, b),
{
    let aa = abs_i(a);
    let q = aa / b;
    let r = aa % b;
    vstd::arithmetic::div_mod::lemma_fundamental_div_mod(aa, b);
    vstd::arithmetic::div_mod::lemma_mod_bound(aa, b);
    assert(aa * c == q * (b * c) + r * c) by (nonlinear_arith)
        requires
            aa == q * b + r,
    ;
    assert(0 <= r * c < b * c) by (nonlinear_arith)
        requires
            0 <= r < b,
            c > 0,
    ;
    vstd::arithmetic::div_mod::lemma_fundamental_div_mod_converse(aa * c, b * c, q, r * c);
    if a >= 0 {
        assert(a * c >= 0) by (nonlinear_arith)
            requires
                a >= 0,
                c > 0,
        ;
        assert(abs_i(a * c) == aa * c);
    } else {
        assert(a * c < 0) by (nonlinear_arith)
            requires
                a < 0,
                c > 0,
        ;
        assert(-(a * c) == (-a) * c) by (nonlinear_arith);
        assert(abs_i(a * c) == aa * c);
    }
    assert(abs_i(b * c) == b * c) by (nonlinear_arith)
        requires
            b > 0,
            c > 0,
    ;
}

} // verus!

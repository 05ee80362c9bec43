//! The natural logarithm on the fixed-point decimal scalar, and the
//! general logarithms derived from it.
//!
//! A positive argument is range-reduced by repeated multiplication or
//! division by e, each step adding or removing one whole unit of the
//! result, and the reduced value feeds an alternating series in
//! `x - 1`, summed until a term's magnitude falls to epsilon (or a
//! generous term budget runs out, since the series gains nothing for
//! reduced values above two).  Everything truncates at the scalar's
//! scale, and the contract pins the result as the exact value of that
//! truncated computation.  A nonpositive argument has no logarithm and
//! answers `None`, as does a step out of the representable range.

use vstd::prelude::*;

use vstd::arithmetic::div_mod::lemma_div_is_ordered;
use vstd::arithmetic::div_mod::lemma_div_is_ordered_by_denominator;
use vstd::arithmetic::div_mod::lemma_div_multiples_vanish;
use vstd::arithmetic::div_mod::lemma_fundamental_div_mod;
use vstd::arithmetic::div_mod::lemma_mod_bound;
use vstd::arithmetic::power2::lemma2_to64;
use vstd::arithmetic::power2::lemma_pow2_pos;
use vstd::arithmetic::power2::lemma_pow2_strictly_increases;
use vstd::arithmetic::power2::lemma_pow2_unfold;
use vstd::arithmetic::power2::pow2;

use crate::concept::Arithmetic;
use crate::dec64::Dec64;
use crate::dec64::DEC64_E_NUM;
use crate::dec64::DEC64_SCALE;
use crate::model::abs_i;
use crate::model::fits_i64;
use crate::model::lemma_tdiv_nonneg;
use crate::model::lemma_tdiv_scale;
use crate::model::mul_v;
use crate::model::tdiv;
use crate::ordinary::powf::opt_units;

verus! {

/// How many series terms the summation will attempt before settling
/// for the partial sum.
pub const LN_FUEL: i64 = 100_000;

/// The numerator of `1 / e`.
pub open spec fn frac_one_e() -> int {
    tdiv((DEC64_SCALE as int) * (DEC64_SCALE as int), DEC64_E_NUM as int)
}

/// Repeated multiplication by e of a value at or below `1/e`: how many
/// steps were taken, and the lifted value.
pub open spec fn ln_raise(x: int) -> (int, int)
    decreases vstd::math::clip(frac_one_e() + 1 - x),
    when 1 <= x
{
    if x <= frac_one_e() {
        let x2 = tdiv(x * (DEC64_E_NUM as int), DEC64_SCALE as int);
        proof {
            lemma_ln_raise_step(x);
        }
        let r = ln_raise(x2);
        (r.0 + 1, r.1)
    } else {
        (0, x)
    }
}

/// The numerator of `1 / e`, evaluated.
pub proof fn lemma_frac_one_e_value()
    ensures
        frac_one_e() == 367_879_441,
{
    assert((DEC64_SCALE as int) * (DEC64_SCALE as int) == 1_000_000_000_000_000_000int)
        by (nonlinear_arith);
    assert(1_000_000_000_000_000_000int == 367_879_441int * 2_718_281_828 + 634_901_852)
        by (nonlinear_arith);
    vstd::arithmetic::div_mod::lemma_fundamental_div_mod_converse(
        1_000_000_000_000_000_000int,
        2_718_281_828,
        367_879_441,
        634_901_852,
    );
}

/// One lifting step at least doubles the value.
pub proof fn lemma_ln_raise_step(x: int)
    requires
        1 <= x,
    ensures
        2 * x <= tdiv(x * (DEC64_E_NUM as int), DEC64_SCALE as int),
        tdiv(x * (DEC64_E_NUM as int), DEC64_SCALE as int) >= 2,
{
    let e = DEC64_E_NUM as int;
    let s = DEC64_SCALE as int;
    assert(2 * s * x <= x * e && x * e >= 0) by (nonlinear_arith)
        requires
            x >= 1,
            e >= 2 * s,
            s > 0,
    ;
    lemma_div_is_ordered(2 * s * x, x * e, s);
    lemma_div_multiples_vanish(2 * x, s);
    assert(s * (2 * x) == 2 * s * x) by (nonlinear_arith);
    lemma_tdiv_nonneg(x * e, s);
}

/// Repeated division by e of a value at or above e: how many steps
/// were taken, and the lowered value.
pub open spec fn ln_shrink(x: int) -> (int, int)
    decreases x,
    when x >= 0
{
    if x >= DEC64_E_NUM as int {
        let x2 = tdiv(x * (DEC64_SCALE as int), DEC64_E_NUM as int);
        proof {
            lemma_ln_shrink_step(x);
        }
        let r = ln_shrink(x2);
        (r.0 + 1, r.1)
    } else {
        (0, x)
    }
}

/// One lowering step at least halves the value, and keeps it positive.
pub proof fn lemma_ln_shrink_step(x: int)
    requires
        x >= DEC64_E_NUM as int,
    ensures
        0 < 2 * tdiv(x * (DEC64_SCALE as int), DEC64_E_NUM as int) <= x,
{
    let e = DEC64_E_NUM as int;
    let s = DEC64_SCALE as int;
    assert(x * s >= 0) by (nonlinear_arith)
        requires
            x >= 0,
            s > 0,
    ;
    lemma_tdiv_nonneg(x * s, e);
    lemma_div_is_ordered_by_denominator(x * s, 2 * s, e);
    lemma_tdiv_scale(x, 2, s);
    lemma_fundamental_div_mod(x, 2);
    lemma_mod_bound(x, 2);
    assert(x * s / e >= 1) by {
        assert(e * 1 <= x * s) by (nonlinear_arith)
            requires
                x >= e,
                s >= 1,
                e >= 1,
        ;
        lemma_div_is_ordered(e, x * s, e);
        lemma_div_multiples_vanish(1, e);
    }
}

/// The alternating series `b - b^2/2 + b^3/3 - ...` in truncated
/// arithmetic: term `i` is `sign * p / i` where `p` is the truncated
/// power `b^i`; summation stops when a term's magnitude reaches
/// epsilon, and answers `None` if a step leaves the range.
pub open spec fn ln_go(b: int, p: int, sign: int, sum: int, i: int, fuel: nat) -> Option<int>
    decreases fuel,
{
    if fuel == 0 {
        Some(sum)
    } else {
        let item = tdiv(sign * p, i);
        if !fits_i64(sum + item) {
            None
        } else if abs_i(item) <= 1 {
            Some(sum + item)
        } else {
            let p2 = mul_v(p, b, DEC64_SCALE as int);
            if !fits_i64(p2) {
                None
            } else {
                ln_go(b, p2, -sign, sum + item, i + 1, (fuel - 1) as nat)
            }
        }
    }
}

/// What the natural logarithm answers on the numerator `x`: `None` off
/// the domain, else the range-reduced, truncated series value.
pub open spec fn ln_v(x: int) -> Option<int> {
    if x <= 0 {
        None
    } else {
        let s = DEC64_SCALE as int;
        let red = if x < s {
            let r = ln_raise(x);
            (-r.0, r.1)
        } else if x > s {
            ln_shrink(x)
        } else {
            (0, x)
        };
        let b = red.1 - s;
        ln_go(b, b, 1, red.0 * s, 1, LN_FUEL as nat)
    }
}

/// The natural logarithm of one is zero.
pub proof fn lemma_ln_one()
    ensures
        ln_v(DEC64_SCALE as int) == Some(0int),
{
    let s = DEC64_SCALE as int;
    assert(ln_go(0, 0, 1, 0, 1, LN_FUEL as nat) == Some(0int)) by {
        assert(tdiv(0int, 1) == 0);
    }
}

/// The natural logarithm: `None` exactly off the positive domain or
/// out of range, the truncated series value otherwise.
pub fn ln(x: &Dec64) -> (r: Option<Dec64>)
    ensures
        opt_units(r) == ln_v(x.v()),
{
    if x.num <= 0 {
        return None;
    }
    let mut xp: i64 = x.num;
    let mut val: i64 = 0;
    let ghost mut steps: int = 0;
    if xp < DEC64_SCALE {
        let fp: i128 = ((DEC64_SCALE as i128) * (DEC64_SCALE as i128)).checked_div(
            DEC64_E_NUM as i128,
        ).unwrap();
        let frac: i64 = fp as i64;
        proof {
            lemma_tdiv_nonneg((DEC64_SCALE as int) * (DEC64_SCALE as int), DEC64_E_NUM as int);
            lemma2_to64();
        }
        while xp <= frac
            invariant
                1 <= xp as int,
                xp as int <= 1_100_000_000,
                frac as int == frac_one_e(),
                0 <= steps <= 31,
                val as int == -steps * (DEC64_SCALE as int),
                (x.v()) * (pow2(steps as nat) as int) <= xp as int,
                1 <= x.v() < DEC64_SCALE as int,
                ln_raise(x.v()).0 == steps + ln_raise(xp as int).0,
                ln_raise(x.v()).1 == ln_raise(xp as int).1,
            decreases vstd::math::clip(frac_one_e() + 1 - xp as int),
        {
            proof {
                lemma_ln_raise_step(xp as int);
                lemma_pow2_pos(steps as nat);
                assert(pow2(steps as nat) <= (x.v()) as nat * pow2(steps as nat))
                    by (nonlinear_arith)
                    requires
                        x.v() >= 1,
                ;
                if steps >= 29 {
                    lemma2_to64();
                    if steps > 29 {
                        lemma_pow2_strictly_increases(29, steps as nat);
                    }
                }
                lemma_pow2_unfold((steps + 1) as nat);
                assert((x.v()) * (pow2((steps + 1) as nat) as int) <= 2 * (xp as int))
                    by (nonlinear_arith)
                    requires
                        (x.v()) * (pow2(steps as nat) as int) <= xp as int,
                        pow2((steps + 1) as nat) == 2 * pow2(steps as nat),
                        x.v() >= 0,
                ;
                lemma_frac_one_e_value();
                assert((xp as int) * (DEC64_E_NUM as int) <= 367_879_441int * 2_718_281_829)
                    by (nonlinear_arith)
                    requires
                        0 <= xp as int <= 367_879_441,
                ;
                lemma_div_is_ordered(
                    (xp as int) * (DEC64_E_NUM as int),
                    367_879_441int * 2_718_281_829,
                    DEC64_SCALE as int,
                );
                lemma_tdiv_nonneg((xp as int) * (DEC64_E_NUM as int), DEC64_SCALE as int);
            }
            let m: i128 = (xp as i128) * (DEC64_E_NUM as i128);
            let q: i128 = m.checked_div(DEC64_SCALE as i128).unwrap();
            xp = q as i64;
            val = val - DEC64_SCALE;
            proof {
                steps = steps + 1;
            }
        }
    } else if xp > DEC64_SCALE {
        proof {
            lemma2_to64();
        }
        while xp >= DEC64_E_NUM
            invariant
                1 <= xp as int,
                0 <= steps <= 63,
                val as int == steps * (DEC64_SCALE as int),
                (xp as int) * (pow2(steps as nat) as int) <= x.v(),
                (DEC64_SCALE as int) < x.v(),
                ln_shrink(x.v()).0 == steps + ln_shrink(xp as int).0,
                ln_shrink(x.v()).1 == ln_shrink(xp as int).1,
            decreases xp,
        {
            proof {
                lemma_ln_shrink_step(xp as int);
                lemma_pow2_pos(steps as nat);
                assert(pow2(steps as nat) <= (xp as int) as nat * pow2(steps as nat))
                    by (nonlinear_arith)
                    requires
                        xp as int >= 1,
                ;
                if steps >= 63 {
                    vstd::arithmetic::power2::lemma2_to64_rest();
                }
                lemma_pow2_unfold((steps + 1) as nat);
                let x2 = tdiv((xp as int) * (DEC64_SCALE as int), DEC64_E_NUM as int);
                assert(x2 * (pow2((steps + 1) as nat) as int) <= (xp as int) * (pow2(
                    steps as nat,
                ) as int)) by (nonlinear_arith)
                    requires
                        2 * x2 <= xp as int,
                        x2 >= 0,
                        pow2((steps + 1) as nat) == 2 * pow2(steps as nat),
                        pow2(steps as nat) >= 1,
                ;
                assert((xp as int) * (DEC64_SCALE as int) >= 0) by (nonlinear_arith)
                    requires
                        xp as int >= 0,
                ;
            }
            let m: i128 = (xp as i128) * (DEC64_SCALE as i128);
            let q: i128 = m.checked_div(DEC64_E_NUM as i128).unwrap();
            xp = q as i64;
            val = val + DEC64_SCALE;
            proof {
                steps = steps + 1;
            }
        }
    }
    let b: i64 = xp - DEC64_SCALE;
    let mut p: i64 = b;
    let mut sign: i64 = 1;
    let mut sum: i64 = val;
    let mut i: i64 = 1;
    proof {
        if x.v() < DEC64_SCALE as int {
            assert(ln_raise(xp as int) == (0int, xp as int));
        } else if x.v() > DEC64_SCALE as int {
            assert(ln_shrink(xp as int) == (0int, xp as int));
        }
    }
    while i <= LN_FUEL
        invariant
            1 <= i <= LN_FUEL + 1,
            sign == 1 || sign == -1,
            ln_v(x.v()) == ln_go(
                b as int,
                p as int,
                sign as int,
                sum as int,
                i as int,
                (LN_FUEL + 1 - i) as nat,
            ),
        decreases LN_FUEL + 1 - i,
    {
        let sp: i128 = (sign as i128) * (p as i128);
        let q: i128 = sp.checked_div(i as i128).unwrap();
        proof {
            crate::model::lemma_tdiv_abs_le((sign as int) * (p as int), i as int);
        }
        let s2: i128 = (sum as i128) + q;
        if s2 < i64::MIN as i128 || s2 > i64::MAX as i128 {
            return None;
        }
        sum = s2 as i64;
        if -1 <= q && q <= 1 {
            return Some(Dec64 { num: sum });
        }
        proof {
            assert(i128::MIN < (p as int) * (b as int) < i128::MAX) by (nonlinear_arith)
                requires
                    i64::MIN <= p as int <= i64::MAX,
                    i64::MIN <= b as int <= i64::MAX,
            ;
        }
        let pm: i128 = (p as i128) * (b as i128);
        let pq: i128 = pm.checked_div(DEC64_SCALE as i128).unwrap();
        if pq < i64::MIN as i128 || pq > i64::MAX as i128 {
            return None;
        }
        p = pq as i64;
        sign = -sign;
        i = i + 1;
    }
    Some(Dec64 { num: sum })
}

/// What the general logarithm answers: `ln x / ln n` in the scalar's
/// truncating division, `None` when either logarithm is absent, the
/// base's logarithm is zero, or the quotient leaves the range.
pub open spec fn log_v(n: int, x: int) -> Option<int> {
    match (ln_v(n), ln_v(x)) {
        (Some(ln_n), Some(ln_x)) => {
            if ln_n == 0 || !fits_i64(
                tdiv(ln_x * (DEC64_SCALE as int), ln_n),
            ) {
                None
            } else {
                Some(tdiv(ln_x * (DEC64_SCALE as int), ln_n))
            }
        },
        _ => None,
    }
}

/// The logarithm of `x` in base `nature`: `ln x / ln nature`.
pub fn log(nature: &Dec64, x: &Dec64) -> (r: Option<Dec64>)
    ensures
        opt_units(r) == log_v(nature.v(), x.v()),
{
    let ln_n = ln(nature);
    let ln_x = ln(x);
    match (ln_n, ln_x) {
        (Some(a), Some(bv)) => {
            if a.num == 0 {
                return None;
            }
            let m: i128 = (bv.num as i128) * (DEC64_SCALE as i128);
            let q: i128 = m.checked_div(a.num as i128).unwrap();
            if q < i64::MIN as i128 || q > i64::MAX as i128 {
                None
            } else {
                Some(Dec64 { num: q as i64 })
            }
        },
        _ => None,
    }
}

/// The base-ten logarithm.
pub fn lg10(x: &Dec64) -> (r: Option<Dec64>)
    ensures
        opt_units(r) == log_v(10 * (DEC64_SCALE as int), x.v()),
{
    let ten = Dec64 { num: 10 * DEC64_SCALE };
    log(&ten, x)
}

/// The base-two logarithm.
pub fn lg2(x: &Dec64) -> (r: Option<Dec64>)
    ensures
        opt_units(r) == log_v(2 * (DEC64_SCALE as int), x.v()),
{
    let two = Dec64 { num: 2 * DEC64_SCALE };
    log(&two, x)
}

} // verus!

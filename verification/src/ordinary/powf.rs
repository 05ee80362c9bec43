//! The exponential on the fixed-point decimal scalar, by incremental
//! Taylor summation: each term comes from the previous one by a single
//! multiplication and division, and summation stops as soon as a term's
//! magnitude falls to the scalar's epsilon.  Real exponentiation
//! combines it with the logarithm.
//!
//! Every arithmetic step truncates at the scalar's scale, so the
//! contract pins the result as the exact value of that truncated
//! summation, not of the real exponential.  A step that would leave the
//! representable range answers `None`.

use vstd::prelude::*;

use crate::concept::Arithmetic;
use crate::dec64::Dec64;
use crate::dec64::DEC64_SCALE;
use crate::model::abs_i;
use crate::model::fits_i64;
use crate::model::mul_v;
use crate::model::tdiv;
use crate::ordinary::log::ln;
use crate::ordinary::log::ln_v;

verus! {

/// How many terms the summation will attempt before settling for the
/// partial sum; the epsilon stop is reached long before this on every
/// input whose terms shrink at all.
pub const EXP_FUEL: i64 = 10_000;

/// The term after `t`, at index `i`: `t * x / i`, truncated at the
/// scale.
pub open spec fn exp_term(t: int, x: int, i: int) -> int {
    tdiv(t * x, (DEC64_SCALE as int) * i)
}

/// The truncated Taylor summation, from term `t` and partial sum `sum`
/// at index `i`: `None` when a step leaves the representable range.
pub open spec fn exp_go(x: int, t: int, sum: int, i: int, fuel: nat) -> Option<int>
    decreases fuel,
{
    if fuel == 0 {
        Some(sum)
    } else {
        let t2 = exp_term(t, x, i);
        if !fits_i64(t2) || !fits_i64(sum + t2) {
            None
        } else if abs_i(t2) <= 1 {
            Some(sum + t2)
        } else {
            exp_go(x, t2, sum + t2, i + 1, (fuel - 1) as nat)
        }
    }
}

/// What the exponential answers on the numerator `x`.
pub open spec fn exp_v(x: int) -> Option<int> {
    exp_go(x, DEC64_SCALE as int, DEC64_SCALE as int, 1, EXP_FUEL as nat)
}

/// The numerators of an optional value.
pub open spec fn opt_units(r: Option<Dec64>) -> Option<int> {
    match r {
        None => None,
        Some(d) => Some(d.v()),
    }
}

/// The natural exponential: `1 + x + x^2/2! + ...` summed in truncated
/// fixed-point arithmetic until a term's magnitude is at most epsilon.
pub fn exp(x: &Dec64) -> (r: Option<Dec64>)
    ensures
        opt_units(r) == exp_v(x.v()),
{
    let xn: i64 = x.num;
    let mut term: i64 = DEC64_SCALE;
    let mut sum: i64 = DEC64_SCALE;
    let mut i: i64 = 1;
    while i <= EXP_FUEL
        invariant
            1 <= i <= EXP_FUEL + 1,
            xn == x.v(),
            exp_v(x.v()) == exp_go(
                xn as int,
                term as int,
                sum as int,
                i as int,
                (EXP_FUEL + 1 - i) as nat,
            ),
        decreases EXP_FUEL + 1 - i,
    {
        proof {
            assert(i128::MIN < (term as int) * (xn as int) < i128::MAX) by (nonlinear_arith)
                requires
                    i64::MIN <= term as int <= i64::MAX,
                    i64::MIN <= xn as int <= i64::MAX,
            ;
            assert((DEC64_SCALE as int) * (i as int) <= i128::MAX) by (nonlinear_arith)
                requires
                    1 <= i as int <= EXP_FUEL as int,
            ;
        }
        let p: i128 = (term as i128) * (xn as i128);
        let d: i128 = (DEC64_SCALE as i128) * (i as i128);
        let t2: i128 = p.checked_div(d).unwrap();
        if t2 < i64::MIN as i128 || t2 > i64::MAX as i128 {
            return None;
        }
        let t2s: i64 = t2 as i64;
        let s2: Option<i64> = sum.checked_add(t2s);
        if s2.is_none() {
            return None;
        }
        term = t2s;
        sum = s2.unwrap();
        if -1 <= term && term <= 1 {
            return Some(Dec64 { num: sum });
        }
        i = i + 1;
    }
    Some(Dec64 { num: sum })
}

/// What real exponentiation answers on the numerators `b` and `i`:
/// the exponential of `i * ln b`, or `None` outside the logarithm's
/// domain or the representable range.
pub open spec fn powf_v(b: int, i: int) -> Option<int> {
    match ln_v(b) {
        None => None,
        Some(lb) => {
            if !fits_i64(mul_v(i, lb, DEC64_SCALE as int)) {
                None
            } else {
                exp_v(mul_v(i, lb, DEC64_SCALE as int))
            }
        },
    }
}

/// Real exponentiation: `base ^ index == exp(index * ln base)`, with
/// `None` for a nonpositive base or a step out of range.
pub fn powf(base: &Dec64, index: &Dec64) -> (r: Option<Dec64>)
    ensures
        opt_units(r) == powf_v(base.v(), index.v()),
{
    let lb = ln(base);
    match lb {
        None => None,
        Some(l) => {
            proof {
                assert(i128::MIN < (index.num as int) * (l.num as int) < i128::MAX)
                    by (nonlinear_arith)
                    requires
                        i64::MIN <= index.num as int <= i64::MAX,
                        i64::MIN <= l.num as int <= i64::MAX,
                ;
            }
            let p: i128 = (index.num as i128) * (l.num as i128);
            let q: i128 = p.checked_div(DEC64_SCALE as i128).unwrap();
            if q < i64::MIN as i128 || q > i64::MAX as i128 {
                None
            } else {
                exp(&Dec64 { num: q as i64 })
            }
        },
    }
}

} // verus!

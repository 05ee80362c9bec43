//! Integer exponentiation by repeated multiplication, and its group
//! variant where a negative exponent divides instead.  A negative
//! exponent on a ring-only scalar is a reported error, never a panic.

use vstd::prelude::*;

use crate::concept::Arithmetic;
use crate::concept::TimesGroup;
use crate::concept::TimesSemiGroup;
use crate::model::div_v;
use crate::model::lemma_tdiv_units;
use crate::model::mul_v;

verus! {

/// `n` truncating multiplications by `b` folded onto `v`, at scale `s`.
pub open spec fn pow_acc(v: int, b: int, n: nat, s: int) -> int
    decreases n,
{
    if n == 0 {
        v
    } else {
        pow_acc(mul_v(v, b, s), b, (n - 1) as nat, s)
    }
}

/// `n` truncating divisions by `b` folded onto `v`, at scale `s`.
pub open spec fn pow_div_acc(v: int, b: int, n: nat, s: int) -> int
    decreases n,
{
    if n == 0 {
        v
    } else {
        pow_div_acc(div_v(v, b, s), b, (n - 1) as nat, s)
    }
}

/// Every intermediate product of the multiplication chain stays
/// representable in `T`.
pub open spec fn pow_ready<T: Arithmetic>(v: int, b: int, n: nat) -> bool
    decreases n,
{
    if n == 0 {
        true
    } else {
        T::in_range(mul_v(v, b, T::scale())) && pow_ready::<T>(
            mul_v(v, b, T::scale()),
            b,
            (n - 1) as nat,
        )
    }
}

/// Every intermediate quotient of the division chain stays
/// representable in `T`.
pub open spec fn pow_div_ready<T: Arithmetic>(v: int, b: int, n: nat) -> bool
    decreases n,
{
    if n == 0 {
        true
    } else {
        T::in_range(div_v(v, b, T::scale())) && pow_div_ready::<T>(
            div_v(v, b, T::scale()),
            b,
            (n - 1) as nat,
        )
    }
}

/// At scale one the multiplication chain is the exact mathematical
/// power.
pub proof fn lemma_pow_acc_exact(v: int, b: int, n: nat)
    ensures
        pow_acc(v, b, n, 1) == v * vstd::arithmetic::power::pow(b, n),
    decreases n,
{
    if n == 0 {
        vstd::arithmetic::power::lemma_pow0(b);
        assert(v * vstd::arithmetic::power::pow(b, 0) == v) by (nonlinear_arith)
            requires
                vstd::arithmetic::power::pow(b, 0) == 1,
        ;
    } else {
        lemma_tdiv_units(v * b);
        lemma_pow_acc_exact(v * b, b, (n - 1) as nat);
        let p = vstd::arithmetic::power::pow(b, (n - 1) as nat);
        assert((v * b) * p == v * (b * p)) by (nonlinear_arith);
        assert(vstd::arithmetic::power::pow(b, n) == b * p) by {
            reveal(vstd::arithmetic::power::pow);
        }
    }
}

/// The error reported for a negative exponent on a scalar without
/// general division: it carries the offending exponent.
#[derive(Clone, Copy, Debug, PartialEq, Eq, Structural)]
pub struct NegativeIndexError {
    pub index: i64,
}

impl NegativeIndexError {
    pub fn new(index: i64) -> (r: Self)
        ensures
            r.index == index,
    {
        NegativeIndexError { index }
    }
}

/// The multiplication chain: `index` further multiplications by `base`
/// folded onto `value`.
pub fn pow_pos_impl<T: TimesSemiGroup>(value: &T, base: &T, index: i64) -> (r: T)
    requires
        index >= 0,
        pow_ready::<T>(value.v(), base.v(), index as nat),
    ensures
        r.v() == pow_acc(value.v(), base.v(), index as nat, T::scale()),
    decreases index,
{
    if index == 0 {
        value.dup()
    } else {
        let next = value.mul_val(base);
        pow_pos_impl(&next, base, index - 1)
    }
}

/// The division chain: `-index` divisions by `base` folded onto
/// `value`.
pub fn pow_neg_impl<T: TimesGroup>(value: &T, base: &T, index: i64) -> (r: T)
    requires
        index <= 0,
        base.v() != 0,
        pow_div_ready::<T>(value.v(), base.v(), (-index) as nat),
    ensures
        r.v() == pow_div_acc(value.v(), base.v(), (-index) as nat, T::scale()),
    decreases -index,
{
    if index == 0 {
        value.dup()
    } else {
        let next = value.div_val(base);
        pow_neg_impl(&next, base, index + 1)
    }
}

/// Power on a multiplicative semigroup: defined for nonnegative
/// exponents only; a negative exponent is answered with the reported
/// error, since `1/x` does not exist on such a scalar.
pub fn pow_times_semi_group<T: TimesSemiGroup>(base: &T, index: i64) -> (r: Result<
    T,
    NegativeIndexError,
>)
    requires
        index >= 0 ==> pow_ready::<T>(T::scale(), base.v(), index as nat),
    ensures
        index >= 0 ==> (r matches Ok(p) && p.v() == pow_acc(
            T::scale(),
            base.v(),
            index as nat,
            T::scale(),
        )),
        index < 0 ==> (r matches Err(e) && e.index == index),
{
    if index >= 1 {
        let one = T::one();
        Ok(pow_pos_impl(&one, base, index))
    } else if index <= -1 {
        Err(NegativeIndexError::new(index))
    } else {
        Ok(T::one())
    }
}

/// Power on a multiplicative group: a negative exponent divides.
pub fn pow_times_group<T: TimesGroup>(base: &T, index: i64) -> (r: T)
    requires
        index >= 0 ==> pow_ready::<T>(T::scale(), base.v(), index as nat),
        index < 0 ==> base.v() != 0,
        index < 0 ==> pow_div_ready::<T>(T::scale(), base.v(), (-index) as nat),
    ensures
        index >= 0 ==> r.v() == pow_acc(T::scale(), base.v(), index as nat, T::scale()),
        index < 0 ==> r.v() == pow_div_acc(T::scale(), base.v(), (-index) as nat, T::scale()),
{
    if index >= 1 {
        let one = T::one();
        pow_pos_impl(&one, base, index)
    } else if index <= -1 {
        let one = T::one();
        pow_neg_impl(&one, base, index)
    } else {
        T::one()
    }
}

/// A zero exponent answers the multiplicative identity, whatever the
/// base: the chain of zero multiplications leaves `one` untouched.
pub proof fn lemma_pow_zero(b: int, s: int)
    ensures
        pow_acc(s, b, 0, s) == s,
        pow_div_acc(s, b, 0, s) == s,
{
}

} // verus!

//! Greatest common divisor and least common multiple as operators, for
//! pairs and for lists.  Small integer scalars use the Euclidean
//! algorithm, 64-bit ones the binary algorithm, as each is faster
//! there; both land on the same mathematical value.

use vstd::prelude::*;

use crate::concept::Arithmetic;
use crate::model::abs_i;
use crate::ordinary::gcd::gcd_euclid;
use crate::ordinary::gcd::gcd_s;
use crate::ordinary::gcd::gcd_stein;
use crate::ordinary::gcd::lemma_divides_le;
use crate::ordinary::gcd::lemma_gcd_divides;

verus! {

/// The least common multiple: `a * (b / gcd)`, or zero when either
/// operand is zero.
pub open spec fn lcm_s(a: nat, b: nat) -> nat {
    if gcd_s(a, b) == 0 {
        0
    } else {
        a * (b / gcd_s(a, b))
    }
}

/// The product of the greatest common divisor and the least common
/// multiple of two positive numbers is their product.
pub proof fn lemma_gcd_lcm_product(a: nat, b: nat)
    requires
        a > 0,
        b > 0,
    ensures
        gcd_s(a, b) * lcm_s(a, b) == a * b,
{
    let g = gcd_s(a, b);
    lemma_gcd_divides(a, b);
    lemma_divides_le(g, a);
    let k = choose|k: nat| b == #[trigger] (g * k);
    assert(b / g == k) by {
        vstd::arithmetic::div_mod::lemma_div_multiples_vanish(k as int, g as int);
    }
    assert(g * (a * k) == a * (g * k)) by (nonlinear_arith);
}

/// The folded greatest common divisor of a sequence of numerators,
/// from the left, with identity zero.
pub open spec fn gcd_seq(s: Seq<int>) -> nat
    decreases s.len(),
{
    if s.len() == 0 {
        0
    } else {
        gcd_s(gcd_seq(s.drop_last()), abs_i(s.last()) as nat)
    }
}

/// The folded least common multiple, with identity one.
pub open spec fn lcm_seq(s: Seq<int>) -> nat
    decreases s.len(),
{
    if s.len() == 0 {
        1
    } else {
        lcm_s(lcm_seq(s.drop_last()), abs_i(s.last()) as nat)
    }
}

/// Every intermediate least common multiple of the fold stays
/// representable in `T`.
pub open spec fn lcm_seq_ready<T: Arithmetic>(s: Seq<int>) -> bool
    decreases s.len(),
{
    if s.len() == 0 {
        true
    } else {
        lcm_seq_ready::<T>(s.drop_last()) && T::in_range(lcm_seq(s) as int)
    }
}

/// A scalar with greatest-common-divisor structure.
pub trait GcdLcm: Arithmetic {
    fn gcd(&self, rhs: &Self) -> (r: Self)
        requires
            self.v() >= 0,
            rhs.v() >= 0,
        ensures
            r.v() == gcd_s(self.v() as nat, rhs.v() as nat),
    ;

    fn lcm(&self, rhs: &Self) -> (r: Self)
        requires
            self.v() >= 0,
            rhs.v() >= 0,
            Self::in_range(lcm_s(self.v() as nat, rhs.v() as nat) as int),
        ensures
            r.v() == lcm_s(self.v() as nat, rhs.v() as nat),
    ;

    fn gcd_lcm(&self, rhs: &Self) -> (r: (Self, Self))
        requires
            self.v() >= 0,
            rhs.v() >= 0,
            Self::in_range(lcm_s(self.v() as nat, rhs.v() as nat) as int),
        ensures
            r.0.v() == gcd_s(self.v() as nat, rhs.v() as nat),
            r.1.v() == lcm_s(self.v() as nat, rhs.v() as nat),
    ;

}

/// The greatest common divisor of two scalars.
pub fn gcd<T: GcdLcm>(lhs: &T, rhs: &T) -> (r: T)
    requires
        lhs.v() >= 0,
        rhs.v() >= 0,
    ensures
        r.v() == gcd_s(lhs.v() as nat, rhs.v() as nat),
{
    lhs.gcd(rhs)
}

/// The least common multiple of two scalars.
pub fn lcm<T: GcdLcm>(lhs: &T, rhs: &T) -> (r: T)
    requires
        lhs.v() >= 0,
        rhs.v() >= 0,
        T::in_range(lcm_s(lhs.v() as nat, rhs.v() as nat) as int),
    ensures
        r.v() == lcm_s(lhs.v() as nat, rhs.v() as nat),
{
    lhs.lcm(rhs)
}

/// Both at once.
pub fn gcd_lcm<T: GcdLcm>(lhs: &T, rhs: &T) -> (r: (T, T))
    requires
        lhs.v() >= 0,
        rhs.v() >= 0,
        T::in_range(lcm_s(lhs.v() as nat, rhs.v() as nat) as int),
    ensures
        r.0.v() == gcd_s(lhs.v() as nat, rhs.v() as nat),
        r.1.v() == lcm_s(lhs.v() as nat, rhs.v() as nat),
{
    lhs.gcd_lcm(rhs)
}

/// The greatest common divisor of a list of scalars.
pub fn gcd_list<T: GcdLcm>(values: &[T]) -> (r: T)
    requires
        forall|i: int| 0 <= i < values@.len() ==> #[trigger] values@[i].v() >= 0,
    ensures
        r.v() == gcd_seq(values@.map_values(|t: T| t.v())),
{
    gcd_fold(values)
}

/// The least common multiple of a list of scalars.
pub fn lcm_list<T: GcdLcm>(values: &[T]) -> (r: T)
    requires
        T::scale() == 1,
        forall|i: int| 0 <= i < values@.len() ==> #[trigger] values@[i].v() >= 0,
        lcm_seq_ready::<T>(values@.map_values(|t: T| t.v())),
    ensures
        r.v() == lcm_seq(values@.map_values(|t: T| t.v())),
{
    lcm_fold(values)
}

/// Both at once, over a list.
pub fn gcd_lcm_list<T: GcdLcm>(values: &[T]) -> (r: (T, T))
    requires
        T::scale() == 1,
        forall|i: int| 0 <= i < values@.len() ==> #[trigger] values@[i].v() >= 0,
        lcm_seq_ready::<T>(values@.map_values(|t: T| t.v())),
    ensures
        r.0.v() == gcd_seq(values@.map_values(|t: T| t.v())),
        r.1.v() == lcm_seq(values@.map_values(|t: T| t.v())),
{
    (gcd_fold(values), lcm_fold(values))
}

/// The pairwise least common multiple, from the two operands and their
/// greatest common divisor.
fn lcm_from_gcd<T: crate::concept::TimesGroup>(lhs: &T, rhs: &T, g: &T) -> (r: T)
    requires
        T::scale() == 1,
        lhs.v() >= 0,
        rhs.v() >= 0,
        g.v() == gcd_s(lhs.v() as nat, rhs.v() as nat),
        T::in_range(lcm_s(lhs.v() as nat, rhs.v() as nat) as int),
    ensures
        r.v() == lcm_s(lhs.v() as nat, rhs.v() as nat),
{
    proof {
        T::range_facts();
        crate::model::lemma_tdiv_units(rhs.v());
    }
    let z = T::zero();
    if g.eq_val(&z) {
        z
    } else {
        proof {
            lemma_gcd_divides(lhs.v() as nat, rhs.v() as nat);
            rhs.v_in_range();
            crate::model::lemma_tdiv_abs_le(rhs.v(), g.v());
            T::in_range_between(0, abs_i(crate::model::tdiv(rhs.v(), g.v())), rhs.v());
            lemma_lcm_step::<T>(lhs.v() as nat, rhs.v() as nat);
        }
        let q = rhs.div_val(g);
        lhs.mul_val(&q)
    }
}

/// The executable route to the least common multiple agrees with its
/// definition: dividing `b` by the (positive) gcd and multiplying by
/// `a` is `lcm`, and it never overflows beyond `lcm` itself.
proof fn lemma_lcm_step<T: Arithmetic>(a: nat, b: nat)
    requires
        gcd_s(a, b) > 0,
        T::scale() == 1,
        T::in_range(lcm_s(a, b) as int),
        T::in_range(0),
    ensures
        crate::model::tdiv(b as int, gcd_s(a, b) as int) == b / gcd_s(a, b),
        crate::model::mul_v(a as int, (b / gcd_s(a, b)) as int, 1) == lcm_s(a, b),
{
    let g = gcd_s(a, b);
    crate::model::lemma_tdiv_nonneg(b as int, g as int);
    crate::model::lemma_tdiv_units((a * (b / g)) as int);
}

impl GcdLcm for i64 {
    fn gcd(&self, rhs: &Self) -> (r: Self) {
        gcd_stein(*self, *rhs)
    }

    fn lcm(&self, rhs: &Self) -> (r: Self) {
        let g = gcd_stein(*self, *rhs);
        lcm_from_gcd(self, rhs, &g)
    }

    fn gcd_lcm(&self, rhs: &Self) -> (r: (Self, Self)) {
        let g = gcd_stein(*self, *rhs);
        let l = lcm_from_gcd(self, rhs, &g);
        (g, l)
    }
}

impl GcdLcm for u64 {
    fn gcd(&self, rhs: &Self) -> (r: Self) {
        gcd_stein(*self, *rhs)
    }

    fn lcm(&self, rhs: &Self) -> (r: Self) {
        let g = gcd_stein(*self, *rhs);
        lcm_from_gcd(self, rhs, &g)
    }

    fn gcd_lcm(&self, rhs: &Self) -> (r: (Self, Self)) {
        let g = gcd_stein(*self, *rhs);
        let l = lcm_from_gcd(self, rhs, &g);
        (g, l)
    }
}

impl GcdLcm for i32 {
    fn gcd(&self, rhs: &Self) -> (r: Self) {
        gcd_euclid(*self, *rhs)
    }

    fn lcm(&self, rhs: &Self) -> (r: Self) {
        let g = gcd_euclid(*self, *rhs);
        lcm_from_gcd(self, rhs, &g)
    }

    fn gcd_lcm(&self, rhs: &Self) -> (r: (Self, Self)) {
        let g = gcd_euclid(*self, *rhs);
        let l = lcm_from_gcd(self, rhs, &g);
        (g, l)
    }
}

/// The left fold of the pairwise greatest common divisor, from zero.
fn gcd_fold<T: GcdLcm>(values: &[T]) -> (r: T)
    requires
        forall|i: int| 0 <= i < values@.len() ==> #[trigger] values@[i].v() >= 0,
    ensures
        r.v() == gcd_seq(values@.map_values(|t: T| t.v())),
{
    let ghost vs = values@.map_values(|t: T| t.v());
    let mut acc = T::zero();
    let mut idx: usize = 0;
    proof {
        assert(vs.take(0) =~= Seq::<int>::empty());
    }
    while idx < values.len()
        invariant
            0 <= idx <= values@.len(),
            vs == values@.map_values(|t: T| t.v()),
            forall|i: int| 0 <= i < values@.len() ==> #[trigger] values@[i].v() >= 0,
            acc.v() == gcd_seq(vs.take(idx as int)),
            acc.v() >= 0,
        decreases values@.len() - idx,
    {
        proof {
            assert(vs.take(idx + 1).drop_last() =~= vs.take(idx as int));
            assert(vs.take(idx + 1).last() == values@[idx as int].v());
        }
        acc = acc.gcd(&values[idx]);
        idx = idx + 1;
    }
    proof {
        assert(vs.take(vs.len() as int) =~= vs);
    }
    acc
}

/// The left fold of the pairwise least common multiple, from one.
fn lcm_fold<T: GcdLcm>(values: &[T]) -> (r: T)
    requires
        T::scale() == 1,
        forall|i: int| 0 <= i < values@.len() ==> #[trigger] values@[i].v() >= 0,
        lcm_seq_ready::<T>(values@.map_values(|t: T| t.v())),
    ensures
        r.v() == lcm_seq(values@.map_values(|t: T| t.v())),
{
    let ghost vs = values@.map_values(|t: T| t.v());
    proof {
        T::range_facts();
        lemma_lcm_ready_prefix::<T>(vs, vs.len() as int);
    }
    let mut acc = T::one();
    let mut idx: usize = 0;
    proof {
        assert(vs.take(0) =~= Seq::<int>::empty());
    }
    while idx < values.len()
        invariant
            0 <= idx <= values@.len(),
            T::scale() == 1,
            vs == values@.map_values(|t: T| t.v()),
            forall|i: int| 0 <= i < values@.len() ==> #[trigger] values@[i].v() >= 0,
            lcm_seq_ready::<T>(vs),
            acc.v() == lcm_seq(vs.take(idx as int)),
            acc.v() >= 0,
        decreases values@.len() - idx,
    {
        proof {
            assert(vs.take(idx + 1).drop_last() =~= vs.take(idx as int));
            assert(vs.take(idx + 1).last() == values@[idx as int].v());
            lemma_lcm_ready_prefix::<T>(vs, idx + 1);
        }
        acc = acc.lcm(&values[idx]);
        idx = idx + 1;
    }
    proof {
        assert(vs.take(vs.len() as int) =~= vs);
    }
    acc
}

/// Readiness of the whole fold gives readiness of each prefix.
proof fn lemma_lcm_ready_prefix<T: Arithmetic>(s: Seq<int>, n: int)
    requires
        lcm_seq_ready::<T>(s),
        0 <= n <= s.len(),
    ensures
        T::in_range(lcm_seq(s.take(n)) as int) || n == 0,
        lcm_seq_ready::<T>(s.take(n)),
    decreases s.len() - n,
{
    if n == s.len() {
        assert(s.take(n) =~= s);
        lemma_lcm_ready_unroll::<T>(s);
    } else {
        lemma_lcm_ready_prefix::<T>(s, n + 1);
        assert(s.take(n + 1).drop_last() =~= s.take(n));
        lemma_lcm_ready_unroll::<T>(s.take(n + 1));
    }
}

/// Readiness of a sequence gives readiness of it minus its last entry.
proof fn lemma_lcm_ready_unroll<T: Arithmetic>(s: Seq<int>)
    requires
        lcm_seq_ready::<T>(s),
    ensures
        s.len() > 0 ==> lcm_seq_ready::<T>(s.drop_last()),
        s.len() > 0 ==> T::in_range(lcm_seq(s) as int),
{
}

} // verus!

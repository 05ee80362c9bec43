//! Greatest common divisor: the mathematical definition, the theory the
//! two algorithms rest on, and the algorithms themselves — the
//! subtract-and-swap Euclidean form and Stein's binary form.

use vstd::prelude::*;

use vstd::arithmetic::div_mod::lemma_fundamental_div_mod;
use vstd::arithmetic::div_mod::lemma_fundamental_div_mod_converse;
use vstd::arithmetic::div_mod::lemma_mod_bound;
use vstd::arithmetic::power2::lemma2_to64;
use vstd::arithmetic::power2::lemma_pow2_unfold;
use vstd::arithmetic::power2::pow2;

use crate::concept::Arithmetic;
use crate::concept::Bits;
use crate::concept::Integer;
use crate::operator::trailing_zeros::TrailingZeros;

verus! {

/// `d` divides `n`.
pub open spec fn divides(d: nat, n: nat) -> bool {
    exists|k: nat| n == #[trigger] (d * k)
}

/// The greatest common divisor, by the classical recursion.
pub open spec fn gcd_s(a: nat, b: nat) -> nat
    decreases b,
{
    if b == 0 {
        a
    } else {
        gcd_s(b, a % b)
    }
}

pub proof fn lemma_divides_refl(a: nat)
    ensures
        divides(a, a),
        divides(a, 0),
{
    assert(a == a * 1);
    assert(0 == a * 0);
}

/// A divisor of a positive number is no larger than it.
pub proof fn lemma_divides_le(d: nat, n: nat)
    requires
        divides(d, n),
        n > 0,
    ensures
        1 <= d <= n,
{
    let k = choose|k: nat| n == #[trigger] (d * k);
    assert(d >= 1 && k >= 1 && d <= d * k) by (nonlinear_arith)
        requires
            n == d * k,
            n > 0,
    ;
}

/// Only zero is divisible by zero.
pub proof fn lemma_divides_zero_left(n: nat)
    requires
        divides(0, n),
    ensures
        n == 0,
{
    let k = choose|k: nat| n == #[trigger] ((0 as nat) * k);
}

/// Divisibility of two numbers extends to their sum and difference.
pub proof fn lemma_divides_add_sub(d: nat, a: nat, b: nat)
    ensures
        divides(d, a) && divides(d, b) ==> divides(d, (a + b) as nat),
        divides(d, a) && divides(d, b) && b >= a ==> divides(d, (b - a) as nat),
{
    if divides(d, a) && divides(d, b) {
        let ka = choose|k: nat| a == #[trigger] (d * k);
        let kb = choose|k: nat| b == #[trigger] (d * k);
        assert(a + b == d * (ka + kb)) by (nonlinear_arith)
            requires
                a == d * ka,
                b == d * kb,
        ;
        if b >= a {
            if d == 0 {
                assert(a == 0 && b == 0) by (nonlinear_arith)
                    requires
                        a == d * ka,
                        b == d * kb,
                        d == 0,
                ;
                assert((b - a) as nat == d * 0);
            } else {
                assert(kb >= ka) by (nonlinear_arith)
                    requires
                        a == d * ka,
                        b == d * kb,
                        b >= a,
                        d > 0,
                ;
                assert(b - a == d * (kb - ka)) by (nonlinear_arith)
                    requires
                        a == d * ka,
                        b == d * kb,
                        kb >= ka,
                ;
            }
        }
    }
}

/// A common divisor of `b` and `a % b` divides `a`, and conversely a
/// common divisor of `a` and `b` divides `a % b`.
pub proof fn lemma_divides_mod(d: nat, a: nat, b: nat)
    requires
        b > 0,
    ensures
        divides(d, b) && divides(d, a % b) ==> divides(d, a),
        divides(d, a) && divides(d, b) ==> divides(d, a % b),
{
    lemma_fundamental_div_mod(a as int, b as int);
    lemma_mod_bound(a as int, b as int);
    let q = (a as int) / (b as int);
    let r = a % b;
    assert(q >= 0) by {
        vstd::arithmetic::div_mod::lemma_div_pos_is_pos(a as int, b as int);
    }
    if divides(d, b) && divides(d, r) {
        let kb = choose|k: nat| b == #[trigger] (d * k);
        let kr = choose|k: nat| r == #[trigger] (d * k);
        assert(a == d * (kb * q + kr)) by (nonlinear_arith)
            requires
                a == b * q + r,
                b == d * kb,
                r == d * kr,
                q >= 0,
        ;
        assert(kb * q + kr >= 0) by (nonlinear_arith)
            requires
                q >= 0,
        ;
        assert(divides(d, a)) by {
            assert(a == d * ((kb * q + kr) as nat));
        }
    }
    if divides(d, a) && divides(d, b) {
        if d == 0 {
            lemma_divides_zero_left(a);
            lemma_divides_zero_left(b);
        } else {
            let ka = choose|k: nat| a == #[trigger] (d * k);
            let kb = choose|k: nat| b == #[trigger] (d * k);
            assert(r == d * (ka - kb * q) && ka - kb * q >= 0) by (nonlinear_arith)
                requires
                    a == b * q + r,
                    a == d * ka,
                    b == d * kb,
                    r >= 0,
                    r < b,
                    d > 0,
                    q >= 0,
            ;
            assert(divides(d, r)) by {
                assert(r == d * ((ka - kb * q) as nat));
            }
        }
    }
}

/// The recursion's value is a common divisor.
pub proof fn lemma_gcd_divides(a: nat, b: nat)
    ensures
        divides(gcd_s(a, b), a),
        divides(gcd_s(a, b), b),
    decreases b,
{
    if b == 0 {
        lemma_divides_refl(a);
    } else {
        lemma_gcd_divides(b, a % b);
        lemma_divides_mod(gcd_s(b, (a % b) as nat), a, b);
    }
}

/// The recursion's value is divisible by every common divisor.
pub proof fn lemma_gcd_greatest(a: nat, b: nat, d: nat)
    requires
        divides(d, a),
        divides(d, b),
    ensures
        divides(d, gcd_s(a, b)),
    decreases b,
{
    if b == 0 {
    } else {
        lemma_divides_mod(d, a, b);
        lemma_gcd_greatest(b, a % b, d);
    }
}

/// Two numbers dividing each other are equal.
pub proof fn lemma_divides_antisym(x: nat, y: nat)
    requires
        divides(x, y),
        divides(y, x),
    ensures
        x == y,
{
    if x == 0 {
        lemma_divides_zero_left(y);
    } else if y == 0 {
        lemma_divides_zero_left(x);
    } else {
        lemma_divides_le(x, y);
        lemma_divides_le(y, x);
    }
}

/// Anything that is a common divisor and a multiple of every common
/// divisor is the greatest common divisor.
pub proof fn lemma_gcd_characterization(a: nat, b: nat, g: nat)
    requires
        divides(g, a),
        divides(g, b),
        forall|d: nat| divides(d, a) && divides(d, b) ==> divides(d, g),
    ensures
        g == gcd_s(a, b),
{
    lemma_gcd_divides(a, b);
    lemma_gcd_greatest(a, b, g);
    lemma_divides_antisym(g, gcd_s(a, b));
}

/// The greatest common divisor is symmetric.
pub proof fn lemma_gcd_comm(a: nat, b: nat)
    ensures
        gcd_s(a, b) == gcd_s(b, a),
{
    lemma_gcd_divides(b, a);
    assert forall|d: nat| divides(d, a) && divides(d, b) implies divides(
        d,
        gcd_s(b, a),
    ) by {
        lemma_gcd_greatest(b, a, d);
    }
    lemma_gcd_characterization(a, b, gcd_s(b, a));
}

/// Zero is the identity of the greatest common divisor.
pub proof fn lemma_gcd_zero(a: nat)
    ensures
        gcd_s(a, 0) == a,
        gcd_s(0, a) == a,
{
    lemma_gcd_comm(a, 0);
}

/// Subtracting the smaller operand from the larger leaves it unchanged.
pub proof fn lemma_gcd_sub(a: nat, b: nat)
    requires
        b >= a,
    ensures
        gcd_s(a, (b - a) as nat) == gcd_s(a, b),
{
    let g = gcd_s(a, (b - a) as nat);
    lemma_gcd_divides(a, (b - a) as nat);
    lemma_divides_add_sub(g, a, (b - a) as nat);
    assert(divides(g, b));
    assert forall|d: nat| divides(d, a) && divides(d, b) implies divides(d, g) by {
        lemma_divides_add_sub(d, a, b);
        lemma_gcd_greatest(a, (b - a) as nat, d);
    }
    lemma_gcd_characterization(a, b, g);
}

/// A common factor of two scales the greatest common divisor.
pub proof fn lemma_gcd_double(a: nat, b: nat)
    ensures
        gcd_s(2 * a, 2 * b) == 2 * gcd_s(a, b),
    decreases b,
{
    if b == 0 {
    } else {
        lemma_fundamental_div_mod(a as int, b as int);
        lemma_mod_bound(a as int, b as int);
        let q = (a as int) / (b as int);
        let r = (a % b) as int;
        assert(2 * a == q * (2 * b) + 2 * r) by (nonlinear_arith)
            requires
                a == b * q + r,
        ;
        lemma_fundamental_div_mod_converse(2 * (a as int), 2 * (b as int), q, 2 * r);
        assert((2 * a) % (2 * b) == 2 * (a % b));
        lemma_gcd_double(b, a % b);
    }
}

/// An even operand sheds its factor of two beside an odd operand.
pub proof fn lemma_gcd_odd_halve(a: nat, b: nat)
    requires
        a % 2 == 1,
    ensures
        gcd_s(a, 2 * b) == gcd_s(a, b),
{
    let g = gcd_s(a, b);
    lemma_gcd_divides(a, b);
    let kb = choose|k: nat| b == #[trigger] (g * k);
    assert(2 * b == g * (2 * kb)) by (nonlinear_arith)
        requires
            b == g * kb,
    ;
    assert(divides(g, 2 * b));
    assert forall|d: nat| divides(d, a) && divides(d, 2 * b) implies divides(d, g) by {
        let ka = choose|k: nat| a == #[trigger] (d * k);
        assert(d % 2 == 1) by {
            if d % 2 == 0 {
                lemma_even_product(d, ka);
            }
        }
        let k2 = choose|k: nat| 2 * b == #[trigger] (d * k);
        assert(k2 % 2 == 0) by {
            if k2 % 2 == 1 {
                lemma_odd_product(d, k2);
            }
        }
        assert(k2 / 2 * 2 == k2) by {
            lemma_fundamental_div_mod(k2 as int, 2);
        }
        assert(b == d * (k2 / 2)) by (nonlinear_arith)
            requires
                2 * b == d * k2,
                k2 / 2 * 2 == k2,
        ;
        assert(divides(d, b));
        lemma_gcd_greatest(a, b, d);
    }
    lemma_gcd_characterization(a, 2 * b, g);
}

/// A product with an even factor is even.
proof fn lemma_even_product(d: nat, k: nat)
    requires
        d % 2 == 0,
    ensures
        (d * k) % 2 == 0,
{
    let h = d / 2;
    lemma_fundamental_div_mod(d as int, 2);
    assert(d * k == 2 * (h * k) + 0) by (nonlinear_arith)
        requires
            d == 2 * h,
    ;
    lemma_fundamental_div_mod_converse((d * k) as int, 2, (h * k) as int, 0);
}

/// A product of two odd numbers is odd.
proof fn lemma_odd_product(d: nat, k: nat)
    requires
        d % 2 == 1,
        k % 2 == 1,
    ensures
        (d * k) % 2 == 1,
{
    let hd = d / 2;
    let hk = k / 2;
    lemma_fundamental_div_mod(d as int, 2);
    lemma_fundamental_div_mod(k as int, 2);
    assert(d * k == 2 * (2 * hd * hk + hd + hk) + 1) by (nonlinear_arith)
        requires
            d == 2 * hd + 1,
            k == 2 * hk + 1,
    ;
    lemma_fundamental_div_mod_converse((d * k) as int, 2, (2 * hd * hk + hd + hk) as int, 1);
}

/// A common power of two scales the greatest common divisor.
pub proof fn lemma_gcd_pow2(a: nat, b: nat, k: nat)
    ensures
        gcd_s(pow2(k) * a, pow2(k) * b) == pow2(k) * gcd_s(a, b),
    decreases k,
{
    if k == 0 {
        lemma2_to64();
    } else {
        lemma_pow2_unfold(k);
        let p = pow2((k - 1) as nat);
        lemma_gcd_pow2(a, b, (k - 1) as nat);
        assert(pow2(k) * a == 2 * (p * a) && pow2(k) * b == 2 * (p * b) && pow2(k) * gcd_s(
            a,
            b,
        ) == 2 * (p * gcd_s(a, b))) by (nonlinear_arith)
            requires
                pow2(k) == 2 * p,
        ;
        lemma_gcd_double(p * a, p * b);
    }
}

/// Beside an odd operand, the other operand sheds any power of two.
pub proof fn lemma_gcd_odd_shed(m: nat, c: nat, k: nat)
    requires
        c % 2 == 1,
    ensures
        gcd_s(pow2(k) * m, c) == gcd_s(m, c),
    decreases k,
{
    if k == 0 {
        lemma2_to64();
    } else {
        lemma_pow2_unfold(k);
        let p = pow2((k - 1) as nat);
        assert(pow2(k) * m == 2 * (p * m)) by (nonlinear_arith)
            requires
                pow2(k) == 2 * p,
        ;
        lemma_gcd_comm(2 * (p * m), c);
        lemma_gcd_odd_halve(c, p * m);
        lemma_gcd_comm(c, p * m);
        lemma_gcd_odd_shed(m, c, (k - 1) as nat);
    }
}

/// A positive value divisible by `pow2(k)` with odd quotient is exactly
/// `pow2(k)` times that quotient.
proof fn lemma_shed_parts(v: int, k: nat)
    requires
        v > 0,
        v % (pow2(k) as int) == 0,
    ensures
        v == pow2(k) * ((v / (pow2(k) as int)) as nat),
        v / (pow2(k) as int) >= 0,
{
    vstd::arithmetic::power2::lemma_pow2_pos(k);
    lemma_fundamental_div_mod(v, pow2(k) as int);
    vstd::arithmetic::div_mod::lemma_div_pos_is_pos(v, pow2(k) as int);
}

/// Greatest common divisor by the subtract-and-swap Euclidean scheme.
/// The smaller operand is subtracted from the larger until one side
/// reaches zero; what is left is the greatest common divisor.
#[verifier::loop_isolation(false)]
pub fn gcd_euclid<I: Integer>(x: I, y: I) -> (r: I)
    requires
        x.v() >= 0,
        y.v() >= 0,
    ensures
        r.v() == gcd_s(x.v() as nat, y.v() as nat),
{
    proof {
        x.v_in_range();
        y.v_in_range();
        I::range_facts();
        lemma_gcd_zero(x.v() as nat);
        lemma_gcd_zero(y.v() as nat);
    }
    let z = I::zero();
    if x.eq_val(&z) {
        return y;
    }
    if y.eq_val(&z) {
        return x;
    }
    let mut a = x;
    let mut b = y;
    while !b.eq_val(&z)
        invariant
            a.v() >= 1,
            b.v() >= 0,
            gcd_s(a.v() as nat, b.v() as nat) == gcd_s(x.v() as nat, y.v() as nat),
        decreases a.v() + b.v(),
    {
        if b.lt_val(&a) {
            proof {
                lemma_gcd_comm(a.v() as nat, b.v() as nat);
            }
            let t = a;
            a = b;
            b = t;
        }
        proof {
            a.v_in_range();
            b.v_in_range();
            I::in_range_between(0, b.v() - a.v(), b.v());
            lemma_gcd_sub(a.v() as nat, b.v() as nat);
        }
        b = b.dist(&a);
    }
    proof {
        lemma_gcd_zero(a.v() as nat);
    }
    a
}

/// Greatest common divisor by Stein's binary scheme: the common power
/// of two is factored out through trailing-zero counts, remaining
/// factors of two are shed from the even operand, and the odd remainders
/// are reduced by subtraction; the common power of two is shifted back
/// in at the end.
#[verifier::loop_isolation(false)]
pub fn gcd_stein<I: Integer + TrailingZeros>(x: I, y: I) -> (r: I)
    requires
        x.v() >= 0,
        y.v() >= 0,
    ensures
        r.v() == gcd_s(x.v() as nat, y.v() as nat),
{
    proof {
        x.v_in_range();
        y.v_in_range();
        I::range_facts();
        lemma_gcd_zero(x.v() as nat);
        lemma_gcd_zero(y.v() as nat);
    }
    let z = I::zero();
    if x.eq_val(&z) {
        return y;
    }
    if y.eq_val(&z) {
        return x;
    }
    let ghost x0 = x.v() as nat;
    let ghost y0 = y.v() as nat;
    let sx = x.trailing_zeros();
    let sy = y.trailing_zeros();
    let shift = if sx <= sy {
        sx
    } else {
        sy
    };
    proof {
        lemma_shed_parts(x.v(), sx as nat);
        lemma_shed_parts(y.v(), sy as nat);
        lemma_stein_setup(x0, y0, sx as nat, sy as nat);
    }
    let mut a = x.shr_k(sx);
    let mut b = y.shr_k(shift);
    proof {
        vstd::arithmetic::power2::lemma_pow2_pos(sx as nat);
        vstd::arithmetic::power2::lemma_pow2_pos(shift as nat);
        vstd::arithmetic::div_mod::lemma_div_pos_is_pos(x.v(), pow2(sx as nat) as int);
        vstd::arithmetic::div_mod::lemma_div_pos_is_pos(y.v(), pow2(shift as nat) as int);
    }
    while !b.eq_val(&z)
        invariant
            a.v() >= 1,
            (a.v() as nat) % 2 == 1,
            b.v() >= 0,
            pow2(shift as nat) * gcd_s(a.v() as nat, b.v() as nat) == gcd_s(x0, y0),
        decreases a.v() + b.v(),
    {
        let tb = b.trailing_zeros();
        proof {
            b.v_in_range();
            lemma_shed_parts(b.v(), tb as nat);
            lemma_gcd_comm(a.v() as nat, b.v() as nat);
            lemma_gcd_odd_shed((b.v() / (pow2(tb as nat) as int)) as nat, a.v() as nat, tb as nat);
            lemma_gcd_comm((b.v() / (pow2(tb as nat) as int)) as nat, a.v() as nat);
            vstd::arithmetic::power2::lemma_pow2_pos(tb as nat);
            vstd::arithmetic::div_mod::lemma_div_is_ordered_by_denominator(
                b.v(),
                1,
                pow2(tb as nat) as int,
            );
        }
        b = b.shr_k(tb);
        if b.lt_val(&a) {
            proof {
                lemma_gcd_comm(a.v() as nat, b.v() as nat);
            }
            let t = a;
            a = b;
            b = t;
        }
        proof {
            a.v_in_range();
            b.v_in_range();
            I::in_range_between(0, b.v() - a.v(), b.v());
            lemma_gcd_sub(a.v() as nat, b.v() as nat);
        }
        b = b.dist(&a);
    }
    proof {
        lemma_gcd_zero(a.v() as nat);
        lemma_gcd_divides(x0, y0);
        lemma_divides_le(gcd_s(x0, y0), x0);
        assert(a.v() * (pow2(shift as nat) as int) == pow2(shift as nat) * (a.v() as nat))
            by (nonlinear_arith)
            requires
                a.v() >= 0,
        ;
        I::in_range_between(0, a.v() * (pow2(shift as nat) as int), x.v());
    }
    a.shl_k(shift)
}

/// After the common power of two is removed and the first operand is
/// reduced to its odd part, the greatest common divisor has been scaled
/// down by exactly that common power.
proof fn lemma_stein_setup(x0: nat, y0: nat, sx: nat, sy: nat)
    requires
        x0 > 0,
        y0 > 0,
        x0 % pow2(sx) == 0,
        (x0 / pow2(sx)) % 2 == 1,
        y0 % pow2(sy) == 0,
        (y0 / pow2(sy)) % 2 == 1,
    ensures
        sx <= sy ==> pow2(sx) * gcd_s(x0 / pow2(sx), y0 / pow2(sx)) == gcd_s(x0, y0),
        sy < sx ==> pow2(sy) * gcd_s(x0 / pow2(sx), y0 / pow2(sy)) == gcd_s(x0, y0),
{
    let ax = x0 / pow2(sx);
    let ay = y0 / pow2(sy);
    lemma_shed_parts(x0 as int, sx);
    lemma_shed_parts(y0 as int, sy);
    if sx <= sy {
        let shift = sx;
        lemma_gcd_pow2(ax, y0 / pow2(shift), shift);
        assert(pow2(shift) * (y0 / pow2(shift)) == y0) by {
            lemma_pow2_divides_down(y0, sy, shift);
        }
    } else {
        let shift = sy;
        let k = (sx - shift) as nat;
        vstd::arithmetic::power2::lemma_pow2_adds(shift, k);
        assert(x0 == pow2(shift) * (pow2(k) * ax)) by (nonlinear_arith)
            requires
                x0 == pow2(sx) * ax,
                pow2(sx) == pow2(shift) * pow2(k),
        ;
        lemma_gcd_pow2(pow2(k) * ax, ay, shift);
        lemma_gcd_odd_shed(ax, ay, k);
        assert(x0 / pow2(shift) == pow2(k) * ax) by {
            vstd::arithmetic::power2::lemma_pow2_pos(shift);
            vstd::arithmetic::div_mod::lemma_div_multiples_vanish(
                (pow2(k) * ax) as int,
                pow2(shift) as int,
            );
        }
    }
}

/// Divisibility by a power of two passes down to smaller powers, and
/// the scaled-down value recombines exactly.
proof fn lemma_pow2_divides_down(v: nat, s: nat, t: nat)
    requires
        t <= s,
        v % pow2(s) == 0,
    ensures
        pow2(t) * (v / pow2(t)) == v,
        v % pow2(t) == 0,
{
    let k = (s - t) as nat;
    vstd::arithmetic::power2::lemma_pow2_adds(t, k);
    vstd::arithmetic::power2::lemma_pow2_pos(t);
    vstd::arithmetic::power2::lemma_pow2_pos(k);
    vstd::arithmetic::power2::lemma_pow2_pos(s);
    lemma_fundamental_div_mod(v as int, pow2(s) as int);
    let q = (v as int) / (pow2(s) as int);
    vstd::arithmetic::div_mod::lemma_div_pos_is_pos(v as int, pow2(s) as int);
    assert(v == pow2(t) * ((pow2(k) * q) as nat)) by (nonlinear_arith)
        requires
            v as int == (pow2(s) as int) * q + 0,
            pow2(s) == pow2(t) * pow2(k),
            q >= 0,
    ;
    vstd::arithmetic::div_mod::lemma_div_multiples_vanish(
        ((pow2(k) * q) as nat) as int,
        pow2(t) as int,
    );
    vstd::arithmetic::div_mod::lemma_mod_multiples_basic(
        ((pow2(k) * q) as nat) as int,
        pow2(t) as int,
    );
    assert(((pow2(k) * q) as nat) as int * (pow2(t) as int) == (pow2(t) as int) * ((pow2(
        k,
    ) * q) as nat) as int) by (nonlinear_arith);
}

} // verus!

//! Counting the trailing zero bits of a nonnegative value: the numerator
//! is `2^r` times an odd number, and `r` is what this operator answers.

use vstd::prelude::*;

use vstd::arithmetic::div_mod::lemma_div_multiples_vanish;
use vstd::arithmetic::div_mod::lemma_mod_multiples_basic;
use vstd::arithmetic::power2::lemma2_to64;
use vstd::arithmetic::power2::lemma_pow2_pos;
use vstd::arithmetic::power2::lemma_pow2_unfold;
use vstd::arithmetic::power2::pow2;

use crate::concept::Arithmetic;
use crate::concept::Bits;

verus! {

/// The trailing-zero count of a nonnegative value.  On zero it answers
/// the type's conventional count (the bit width, for the primitives).
pub trait TrailingZeros: Bits {
    /// What the count answers on zero.
    spec fn zero_tz() -> nat;

    fn trailing_zeros(&self) -> (r: usize)
        requires
            self.v() >= 0,
        ensures
            self.v() == 0 ==> r as nat == Self::zero_tz(),
            self.v() > 0 ==> Self::shift_ok(r),
            self.v() > 0 ==> self.v() % (pow2(r as nat) as int) == 0,
            self.v() > 0 ==> (self.v() / (pow2(r as nat) as int)) % 2 == 1,
    ;
}

/// The loop shared by the primitive implementations, on the value cast
/// up to `u64`.
fn trailing_zeros_u64(v: u64) -> (r: usize)
    requires
        v > 0,
    ensures
        r < 64,
        v as int % (pow2(r as nat) as int) == 0,
        (v as int / (pow2(r as nat) as int)) % 2 == 1,
{
    let mut x: u64 = v;
    let mut c: usize = 0;
    proof {
        lemma2_to64();
    }
    while x % 2 == 0
        invariant
            x >= 1,
            c <= 64,
            v as int == x as int * (pow2(c as nat) as int),
        decreases x,
    {
        proof {
            vstd::arithmetic::power2::lemma2_to64_rest();
            lemma_pow2_pos(c as nat);
            assert(pow2(c as nat) <= x as nat * pow2(c as nat)) by (nonlinear_arith)
                requires
                    x >= 1,
            ;
            lemma_pow2_unfold((c + 1) as nat);
            vstd::arithmetic::div_mod::lemma_fundamental_div_mod(x as int, 2);
            assert((x as int / 2) * (2 * pow2(c as nat) as int) == x as int * (pow2(
                c as nat,
            ) as int)) by (nonlinear_arith)
                requires
                    x as int % 2 == 0,
                    x as int == 2 * (x as int / 2) + (x as int % 2),
            ;
        }
        x = x / 2;
        c = c + 1;
    }
    proof {
        lemma_pow2_pos(c as nat);
        assert(pow2(c as nat) <= x as nat * pow2(c as nat)) by (nonlinear_arith)
            requires
                x >= 1,
        ;
        if c >= 64 {
            if c > 64 {
                vstd::arithmetic::power2::lemma_pow2_strictly_increases(64, c as nat);
            }
            vstd::arithmetic::power2::lemma2_to64_rest();
        }
        lemma_mod_multiples_basic(x as int, pow2(c as nat) as int);
        lemma_div_multiples_vanish(x as int, pow2(c as nat) as int);
        assert(x as int * (pow2(c as nat) as int) == (pow2(c as nat) as int) * (x as int))
            by (nonlinear_arith);
    }
    c
}

impl TrailingZeros for u64 {
    open spec fn zero_tz() -> nat {
        64
    }

    fn trailing_zeros(&self) -> (r: usize) {
        if *self == 0 {
            64
        } else {
            trailing_zeros_u64(*self)
        }
    }
}

impl TrailingZeros for i64 {
    open spec fn zero_tz() -> nat {
        64
    }

    fn trailing_zeros(&self) -> (r: usize) {
        if *self == 0 {
            64
        } else {
            trailing_zeros_u64(*self as u64)
        }
    }
}

impl TrailingZeros for i32 {
    open spec fn zero_tz() -> nat {
        32
    }

    fn trailing_zeros(&self) -> (r: usize) {
        if *self == 0 {
            32
        } else {
            let r = trailing_zeros_u64(*self as u32 as u64);
            proof {
                let p = pow2(r as nat) as int;
                lemma_pow2_pos(r as nat);
                if r >= 32 {
                    vstd::arithmetic::div_mod::lemma_fundamental_div_mod(*self as int, p);
                    let q = *self as int / p;
                    assert(q >= 1 && *self as int >= p) by (nonlinear_arith)
                        requires
                            *self as int == p * q + (*self as int % p),
                            *self as int % p == 0,
                            *self as int > 0,
                            p >= 1,
                    ;
                    lemma2_to64();
                    if r > 32 {
                        vstd::arithmetic::power2::lemma_pow2_strictly_increases(32, r as nat);
                    }
                }
            }
            r
        }
    }
}

} // verus!

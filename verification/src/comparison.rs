//! The comparison operator engine.
//!
//! Every relation (zero-test, equal, unequal, less, less-equal, greater,
//! greater-equal, and a three-way compare) comes in two strategies: an
//! exact one for integer-like scalars and an epsilon-tolerant one for
//! scalars with a meaningful precision.  A builder per relation picks the
//! strategy from the scalar's declared capabilities, or takes an explicit
//! tolerance.
//!
//! The tolerant semantics, stated over numerators with tolerance `p`:
//! the zero test accepts `|x| <= p`; equality accepts `|x - y| <= p`;
//! `less` asks `y - x >= p` while `greater` asks `x - y > p`.  The
//! strict relations are deliberately not complements of the non-strict
//! ones near the boundary: at `y - x == p` both `less(x, y)` and
//! `greater_equal(x, y)` hold.  That asymmetry is inherited from
//! epsilon-based comparison and is part of the contract, not a defect.

pub mod compare;
pub mod equal;
pub mod greater;
pub mod greater_equal;
pub mod less;
pub mod less_equal;
pub mod unequal;
pub mod zero;

use vstd::prelude::*;

use crate::model::abs_i;

verus! {

/// The tolerance numerator an operator applies: zero when exact.
pub open spec fn tol_v(t: Option<int>) -> int {
    match t {
        None => 0,
        Some(p) => p,
    }
}

/// What the zero test answers: exact (`None`) or within tolerance `p`.
pub open spec fn zero_sem(t: Option<int>, x: int) -> bool {
    match t {
        None => x == 0,
        Some(p) => abs_i(x) <= p,
    }
}

pub open spec fn equal_sem(t: Option<int>, x: int, y: int) -> bool {
    match t {
        None => x == y,
        Some(p) => abs_i(x - y) <= p,
    }
}

pub open spec fn unequal_sem(t: Option<int>, x: int, y: int) -> bool {
    match t {
        None => x != y,
        Some(p) => abs_i(x - y) > p,
    }
}

/// The tolerant strict `less`: values already ordered the wrong way are
/// rejected outright, and the boundary is decided by the tolerance,
/// inclusively.
pub open spec fn less_sem(t: Option<int>, x: int, y: int) -> bool {
    match t {
        None => x < y,
        Some(p) => x <= y && y - x >= p,
    }
}

pub open spec fn less_equal_sem(t: Option<int>, x: int, y: int) -> bool {
    match t {
        None => x <= y,
        Some(p) => x < y || x - y <= p,
    }
}

/// The tolerant strict `greater` decides its boundary exclusively, so it
/// is not the mirror image of `less_sem`.
pub open spec fn greater_sem(t: Option<int>, x: int, y: int) -> bool {
    match t {
        None => x > y,
        Some(p) => x >= y && x - y > p,
    }
}

pub open spec fn greater_equal_sem(t: Option<int>, x: int, y: int) -> bool {
    match t {
        None => x >= y,
        Some(p) => x > y || y - x <= p,
    }
}

/// The three-way comparison: equality within tolerance wins, otherwise
/// the exact order decides.  A total scalar always gets an answer.
pub open spec fn compare_sem(t: Option<int>, x: int, y: int) -> Option<core::cmp::Ordering> {
    if equal_sem(t, x, y) {
        Some(core::cmp::Ordering::Equal)
    } else if x < y {
        Some(core::cmp::Ordering::Less)
    } else {
        Some(core::cmp::Ordering::Greater)
    }
}

/// With a nonnegative tolerance the tolerant relations take their plain
/// one-inequality forms.
pub proof fn lemma_tolerant_forms(p: int, x: int, y: int)
    requires
        p >= 0,
    ensures
        less_sem(Some(p), x, y) == (y - x >= p),
        less_equal_sem(Some(p), x, y) == (x - y <= p),
        greater_sem(Some(p), x, y) == (x - y > p),
        greater_equal_sem(Some(p), x, y) == (y - x <= p),
{
}

/// Tolerant equality is reflexive: under any nonnegative tolerance, a
/// value equals itself.
pub proof fn lemma_equal_reflexive(p: int, x: int)
    requires
        p >= 0,
    ensures
        equal_sem(Some(p), x, x),
        zero_sem(Some(p), 0),
{
}

/// A zero tolerance degenerates tolerant equality to exact equality.
pub proof fn lemma_zero_tolerance_exact(x: int, y: int)
    ensures
        equal_sem(Some(0), x, y) == equal_sem(None, x, y),
        unequal_sem(Some(0), x, y) == unequal_sem(None, x, y),
        zero_sem(Some(0), x) == zero_sem(None, x),
{
}

/// The tolerance boundary is inclusive for equality: a value equals its
/// translate by exactly the tolerance, and fails to equal any translate
/// farther out.
pub proof fn lemma_tolerance_boundary(t: int, x: int, d: int)
    requires
        t >= 0,
        d > 0,
    ensures
        equal_sem(Some(t), x, x + t),
        !equal_sem(Some(t), x, x + t + d),
{
}

/// At the tolerance boundary `y - x == p`, `less` and `greater_equal`
/// both hold: the tolerant strict order and its opposite non-strict
/// order are not complements.  The boundary is inclusive for `less`
/// and `less_equal` but exclusive for `greater`, which fails on the
/// mirrored pair there.
pub proof fn lemma_boundary_overlap(p: int, x: int, y: int)
    requires
        p >= 0,
        y - x == p,
    ensures
        less_sem(Some(p), x, y),
        greater_equal_sem(Some(p), x, y),
        less_equal_sem(Some(p), y, x),
        !greater_sem(Some(p), y, x),
{
}

/// Whatever strategy the builder picks for a scalar, the default
/// equality operator accepts every value against itself: exact
/// equality is reflexive, and the default tolerance is never negative.
pub proof fn lemma_default_equal_reflexive<T: crate::concept::RealNumber>(x: T)
    ensures
        equal_sem(
            if T::is_tolerant() {
                Some(T::decimal_precision_v())
            } else {
                (None::<int>)
            },
            x.v(),
            x.v(),
        ),
{
    T::precision_facts();
}

} // verus!

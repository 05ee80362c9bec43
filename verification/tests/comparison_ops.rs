//! The comparison operators, exact and tolerant.

use ospf_math::comparison::compare::Compare;
use ospf_math::comparison::compare::CompareOpr;
use ospf_math::comparison::equal::Equal;
use ospf_math::comparison::equal::EqualOpr;
use ospf_math::comparison::greater::Greater;
use ospf_math::comparison::greater::GreaterOpr;
use ospf_math::comparison::greater_equal::GreaterEqual;
use ospf_math::comparison::greater_equal::GreaterEqualOpr;
use ospf_math::comparison::less::Less;
use ospf_math::comparison::less::LessOpr;
use ospf_math::comparison::less_equal::LessEqual;
use ospf_math::comparison::less_equal::LessEqualOpr;
use ospf_math::comparison::unequal::Unequal;
use ospf_math::comparison::unequal::UnequalOpr;
use ospf_math::comparison::zero::Zero;
use ospf_math::comparison::zero::ZeroOpr;
use ospf_math::dec64::Dec64;
use std::cmp::Ordering;

/// The decimal scalar standing for the floating value `x`.
fn fx(x: f64) -> Dec64 {
    Dec64::from_units((x * 1e9).round() as i64)
}

#[test]
fn test_eq_int() {
    let eq = Equal::<i64>::new();
    assert_eq!(eq.call(&0, &0), true);
    assert_eq!(eq.call(&1, &0), false);
}

#[test]
fn test_eq_flt() {
    let eq = Equal::<Dec64>::new();
    assert_eq!(eq.call(&fx(0.0), &fx(0.0)), true);
    assert_eq!(eq.call(&fx(1e-6), &fx(0.0)), false);

    let eq = Equal::<Dec64>::new_with(fx(1e-5));
    assert_eq!(eq.call(&fx(0.0), &fx(0.0)), true);
    assert_eq!(eq.call(&fx(1e-6), &fx(0.0)), true);
}

#[test]
fn test_neq_int() {
    let neq = Unequal::<i64>::new();
    assert_eq!(neq.call(&0, &0), false);
    assert_eq!(neq.call(&1, &0), true);
}

#[test]
fn test_neq_flt() {
    let neq = Unequal::<Dec64>::new();
    assert_eq!(neq.call(&fx(0.0), &fx(0.0)), false);
    assert_eq!(neq.call(&fx(1e-6), &fx(0.0)), true);

    let neq = Unequal::<Dec64>::new_with(fx(1e-5));
    assert_eq!(neq.call(&fx(0.0), &fx(0.0)), false);
    assert_eq!(neq.call(&fx(1e-6), &fx(0.0)), false);
}

#[test]
fn test_ls_int() {
    let ls = Less::<i64>::new();
    assert_eq!(ls.call(&1, &2), true);
    assert_eq!(ls.call(&2, &1), false);
    assert_eq!(ls.call(&1, &1), false);
}

#[test]
fn test_ls_flt() {
    let ls = Less::<Dec64>::new();
    assert_eq!(ls.call(&fx(0.0), &fx(0.0)), false);
    assert_eq!(ls.call(&fx(0.0), &fx(1e-6)), true);
    assert_eq!(ls.call(&fx(1e-6), &fx(0.0)), false);
    assert_eq!(ls.call(&fx(0.0), &fx(1e-4)), true);
    assert_eq!(ls.call(&fx(1e-4), &fx(0.0)), false);

    let ls = Less::<Dec64>::new_with(fx(1e-5));
    assert_eq!(ls.call(&fx(0.0), &fx(0.0)), false);
    assert_eq!(ls.call(&fx(0.0), &fx(1e-6)), false);
    assert_eq!(ls.call(&fx(1e-6), &fx(0.0)), false);
    assert_eq!(ls.call(&fx(0.0), &fx(1e-4)), true);
    assert_eq!(ls.call(&fx(1e-4), &fx(0.0)), false);
}

#[test]
fn test_leq_int() {
    let leq = LessEqual::<i64>::new();
    assert_eq!(leq.call(&1, &2), true);
    assert_eq!(leq.call(&2, &1), false);
    assert_eq!(leq.call(&1, &1), true);
}

#[test]
fn test_leq_flt() {
    let leq = LessEqual::<Dec64>::new();
    assert_eq!(leq.call(&fx(0.0), &fx(0.0)), true);
    assert_eq!(leq.call(&fx(0.0), &fx(1e-6)), true);
    assert_eq!(leq.call(&fx(1e-6), &fx(0.0)), false);
    assert_eq!(leq.call(&fx(0.0), &fx(1e-4)), true);
    assert_eq!(leq.call(&fx(1e-4), &fx(0.0)), false);

    let leq = LessEqual::<Dec64>::new_with(fx(1e-5));
    assert_eq!(leq.call(&fx(0.0), &fx(0.0)), true);
    assert_eq!(leq.call(&fx(0.0), &fx(1e-6)), true);
    assert_eq!(leq.call(&fx(1e-6), &fx(0.0)), true);
    assert_eq!(leq.call(&fx(0.0), &fx(1e-4)), true);
    assert_eq!(leq.call(&fx(1e-4), &fx(0.0)), false);
}

#[test]
fn test_gr_int() {
    let gr = Greater::<i64>::new();
    assert_eq!(gr.call(&1, &2), false);
    assert_eq!(gr.call(&2, &1), true);
    assert_eq!(gr.call(&1, &1), false);
}

#[test]
fn test_gr_flt() {
    let gr = Greater::<Dec64>::new();
    assert_eq!(gr.call(&fx(0.0), &fx(0.0)), false);
    assert_eq!(gr.call(&fx(0.0), &fx(1e-6)), false);
    assert_eq!(gr.call(&fx(1e-6), &fx(0.0)), true);
    assert_eq!(gr.call(&fx(0.0), &fx(1e-4)), false);
    assert_eq!(gr.call(&fx(1e-4), &fx(0.0)), true);

    let gr = Greater::<Dec64>::new_with(fx(1e-5));
    assert_eq!(gr.call(&fx(0.0), &fx(0.0)), false);
    assert_eq!(gr.call(&fx(0.0), &fx(1e-6)), false);
    assert_eq!(gr.call(&fx(1e-6), &fx(0.0)), false);
    assert_eq!(gr.call(&fx(0.0), &fx(1e-4)), false);
    assert_eq!(gr.call(&fx(1e-4), &fx(0.0)), true);
}

#[test]
fn test_geq_int() {
    let geq = GreaterEqual::<i64>::new();
    assert_eq!(geq.call(&1, &2), false);
    assert_eq!(geq.call(&2, &1), true);
    assert_eq!(geq.call(&1, &1), true);
}

#[test]
fn test_geq_flt() {
    let geq = GreaterEqual::<Dec64>::new();
    assert_eq!(geq.call(&fx(0.0), &fx(0.0)), true);
    assert_eq!(geq.call(&fx(0.0), &fx(1e-6)), false);
    assert_eq!(geq.call(&fx(1e-6), &fx(0.0)), true);
    assert_eq!(geq.call(&fx(0.0), &fx(1e-4)), false);
    assert_eq!(geq.call(&fx(1e-4), &fx(0.0)), true);

    let geq = GreaterEqual::<Dec64>::new_with(fx(1e-5));
    assert_eq!(geq.call(&fx(0.0), &fx(0.0)), true);
    assert_eq!(geq.call(&fx(0.0), &fx(1e-6)), true);
    assert_eq!(geq.call(&fx(1e-6), &fx(0.0)), true);
    assert_eq!(geq.call(&fx(0.0), &fx(1e-4)), false);
    assert_eq!(geq.call(&fx(1e-4), &fx(0.0)), true);
}

#[test]
fn test_zero_int() {
    let zero = Zero::<i64>::new();
    assert_eq!(zero.call(&0), true);
    assert_eq!(zero.call(&1), false);
}

#[test]
fn test_zero_flt() {
    let zero = Zero::<Dec64>::new();
    assert_eq!(zero.call(&fx(0.0)), true);
    assert_eq!(zero.call(&fx(1e-6)), false);

    let zero = Zero::<Dec64>::new_with(fx(1e-5));
    assert_eq!(zero.call(&fx(0.0)), true);
    assert_eq!(zero.call(&fx(1e-6)), true);
}

#[test]
fn test_cmp_int() {
    let cmp = Compare::<i64>::new();
    assert_eq!(cmp.call(&0, &0), Some(Ordering::Equal));
    assert_eq!(cmp.call(&1, &2), Some(Ordering::Less));
    assert_eq!(cmp.call(&2, &1), Some(Ordering::Greater));
}

#[test]
fn test_cmp_flt() {
    let cmp = Compare::<Dec64>::new();
    assert_eq!(cmp.call(&fx(0.0), &fx(0.0)), Some(Ordering::Equal));
    assert_eq!(cmp.call(&fx(0.0), &fx(1e-6)), Some(Ordering::Less));
    assert_eq!(cmp.call(&fx(1e-6), &fx(0.0)), Some(Ordering::Greater));
    assert_eq!(cmp.call(&fx(0.0), &fx(1e-4)), Some(Ordering::Less));
    assert_eq!(cmp.call(&fx(1e-4), &fx(0.0)), Some(Ordering::Greater));

    let cmp = Compare::<Dec64>::new_with(fx(1e-5));
    assert_eq!(cmp.call(&fx(0.0), &fx(0.0)), Some(Ordering::Equal));
    assert_eq!(cmp.call(&fx(0.0), &fx(1e-6)), Some(Ordering::Equal));
    assert_eq!(cmp.call(&fx(1e-6), &fx(0.0)), Some(Ordering::Equal));
    assert_eq!(cmp.call(&fx(0.0), &fx(1e-4)), Some(Ordering::Less));
    assert_eq!(cmp.call(&fx(1e-4), &fx(0.0)), Some(Ordering::Greater));
}

/// An equality operator always accepts a value against itself, and an
/// explicit zero tolerance degenerates to exact equality.
#[test]
fn equal_reflexive_and_zero_tolerance() {
    let eq = Equal::<Dec64>::new();
    for u in [-7_000_000_000i64, -1, 0, 1, 123_456_789, 9_000_000_000] {
        let x = Dec64::from_units(u);
        assert!(eq.call(&x, &x));
    }
    let exact = Equal::<Dec64>::new_with(fx(0.0));
    assert!(exact.call(&fx(1.5), &fx(1.5)));
    assert!(!exact.call(&fx(1.5), &fx(1.5000000019)));
}

/// The tolerance boundary is inclusive: `x` equals `x + t`, and fails
/// against anything farther.
#[test]
fn equal_tolerance_boundary() {
    let t = fx(1e-5);
    let eq = Equal::<Dec64>::new_with(t);
    let x = fx(2.5);
    let at_boundary = Dec64::from_units(x.units() + t.units());
    let past_boundary = Dec64::from_units(x.units() + t.units() + 1);
    assert!(eq.call(&x, &at_boundary));
    assert!(!eq.call(&x, &past_boundary));
}

/// Near the boundary the tolerant strict order and its opposite
/// non-strict order are not complements: at a distance of exactly the
/// tolerance, both `less` and `greater_equal` hold.
#[test]
fn less_and_greater_equal_overlap() {
    let t = fx(1e-5);
    let ls = Less::<Dec64>::new_with(t);
    let geq = GreaterEqual::<Dec64>::new_with(t);
    let x = fx(1.0);
    let y = Dec64::from_units(x.units() + t.units());
    assert!(ls.call(&x, &y));
    assert!(geq.call(&x, &y));
}

/// The three-way comparison answers an ordering for every pair of
/// decimal values: none of the scalars carries a not-a-number.
#[test]
fn compare_is_total() {
    let cmp = Compare::<Dec64>::new();
    assert!(cmp.call(&fx(-3.5), &fx(7.25)).is_some());
    assert!(cmp.call(&fx(7.25), &fx(-3.5)).is_some());
    assert!(cmp.call(&fx(7.25), &fx(7.25)).is_some());
}

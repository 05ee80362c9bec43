//! Extended values, interval endpoints, and value ranges.

use ospf_math::value_range::bound::BoundSide;
use ospf_math::value_range::interval::Interval;
use ospf_math::value_range::value_range::empty;
use ospf_math::value_range::value_range::ValueRange;
use ospf_math::value_range::value_wrapper::ValueWrapper;
use std::cmp::Ordering;

fn fin(w: &ValueWrapper<i64>) -> i64 {
    match w {
        ValueWrapper::Value(v) => *v,
        ValueWrapper::Inf => panic!("expected a finite value"),
        ValueWrapper::NegInf => panic!("expected a finite value"),
    }
}

#[test]
fn extended_addition_and_subtraction() {
    let two = ValueWrapper::Value(2i64);
    let three = ValueWrapper::Value(3i64);
    let inf = ValueWrapper::<i64>::Inf;
    let neg_inf = ValueWrapper::<i64>::NegInf;

    assert_eq!(fin(&two.add(&three).unwrap()), 5);
    assert!(matches!(two.add(&inf).unwrap(), ValueWrapper::Inf));
    assert!(matches!(neg_inf.add(&two).unwrap(), ValueWrapper::NegInf));
    assert!(inf.add(&neg_inf).is_err());

    assert_eq!(fin(&three.sub(&two).unwrap()), 1);
    assert!(matches!(two.sub(&inf).unwrap(), ValueWrapper::NegInf));
    assert!(inf.sub(&inf).is_err());
    assert!(matches!(inf.sub(&neg_inf).unwrap(), ValueWrapper::Inf));
}

#[test]
fn extended_multiplication_and_division() {
    let two = ValueWrapper::Value(2i64);
    let minus = ValueWrapper::Value(-2i64);
    let zero = ValueWrapper::Value(0i64);
    let inf = ValueWrapper::<i64>::Inf;
    let neg_inf = ValueWrapper::<i64>::NegInf;

    assert_eq!(fin(&two.mul(&minus).unwrap()), -4);
    assert!(matches!(two.mul(&inf).unwrap(), ValueWrapper::Inf));
    assert!(matches!(minus.mul(&inf).unwrap(), ValueWrapper::NegInf));
    assert!(matches!(zero.mul(&inf).unwrap(), ValueWrapper::Inf));
    assert!(matches!(inf.mul(&neg_inf).unwrap(), ValueWrapper::NegInf));

    assert_eq!(fin(&ValueWrapper::Value(7i64).div(&two).unwrap()), 3);
    assert_eq!(fin(&two.div(&inf).unwrap()), 0);
    assert!(matches!(inf.div(&minus).unwrap(), ValueWrapper::NegInf));
    assert!(inf.div(&neg_inf).is_err());
}

#[test]
fn extended_order() {
    let two = ValueWrapper::Value(2i64);
    let three = ValueWrapper::Value(3i64);
    let inf = ValueWrapper::<i64>::Inf;
    let neg_inf = ValueWrapper::<i64>::NegInf;

    assert_eq!(two.cmp(&three), Ordering::Less);
    assert_eq!(two.partial_cmp(&two), Some(Ordering::Equal));
    assert_eq!(inf.cmp(&three), Ordering::Greater);
    assert_eq!(neg_inf.cmp(&three), Ordering::Less);
    assert_eq!(inf.cmp(&inf), Ordering::Equal);
    assert!(two.eq(&two));
    assert!(!two.eq(&inf));
}

#[test]
fn interval_algebra() {
    assert_eq!(Interval::Open.union(Interval::Closed), Interval::Closed);
    assert_eq!(Interval::Open.union(Interval::Open), Interval::Open);
    assert_eq!(Interval::Closed.intersect(Interval::Open), Interval::Open);
    assert_eq!(Interval::Closed.intersect(Interval::Closed), Interval::Closed);
    assert_eq!(Interval::Open.lb_sign(), "(");
    assert_eq!(Interval::Closed.ub_sign(), "]");

    let inside = Interval::Closed.lb_op::<i64>();
    assert!(inside.call(&1, &1));
    let strictly = Interval::Open.lb_op::<i64>();
    assert!(!strictly.call(&1, &1));
    assert!(strictly.call(&1, &2));
}

#[test]
fn range_emptiness() {
    assert!(!empty(&1i64, &5, Interval::Closed, Interval::Closed));
    assert!(empty(&5i64, &1, Interval::Closed, Interval::Closed));
    assert!(!empty(&1i64, &1, Interval::Closed, Interval::Closed));
    assert!(empty(&1i64, &1, Interval::Open, Interval::Open));
}

#[test]
fn range_construction_and_shift() {
    let whole = ValueRange::<i64>::new();
    assert!(matches!(whole.lb.as_ref().unwrap().value, ValueWrapper::NegInf));
    assert!(matches!(whole.ub.as_ref().unwrap().value, ValueWrapper::Inf));
    let moved = whole.add(&3).unwrap();
    assert!(matches!(moved.lb.as_ref().unwrap().value, ValueWrapper::NegInf));
    assert_eq!(moved.ub.as_ref().unwrap().side, BoundSide::Upper);

    let r = ValueRange::<i64>::new_with(1, 5, Interval::Closed, Interval::Open);
    let shifted = r.add(&3).unwrap();
    assert_eq!(fin(&shifted.lb.as_ref().unwrap().value), 4);
    assert_eq!(fin(&shifted.ub.as_ref().unwrap().value), 8);
    assert_eq!(shifted.lb.as_ref().unwrap().interval, Interval::Closed);
    assert_eq!(shifted.ub.as_ref().unwrap().interval, Interval::Open);

    let gone = ValueRange::<i64> { lb: None, ub: None };
    assert!(gone.add(&1).is_err());
    assert!(!gone.empty());
}

#[test]
fn range_fixedness() {
    let point = ValueRange::<i64>::new_with(3, 3, Interval::Closed, Interval::Closed);
    assert!(point.fixed());
    let span = ValueRange::<i64>::new_with(1, 5, Interval::Closed, Interval::Closed);
    assert!(!span.fixed());
    let whole = ValueRange::<i64>::new();
    assert!(!whole.fixed());
}

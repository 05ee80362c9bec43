//! The small named operators, the rounding methods of the decimal
//! scalar, the index counter, and the compile-time type choice.

use ospf_math::concept::Arithmetic;
use ospf_math::concept::FloatingNumber;
use ospf_math::conditional::ConditionalType;
use ospf_math::dec64::Dec64;
use ospf_math::indexed::IndexGeneratorImpl;
use ospf_math::operator::abs::abs;
use ospf_math::operator::cross::cross;
use ospf_math::operator::int_div::int_div;
use ospf_math::operator::neg::neg;
use ospf_math::operator::reciprocal::reciprocal;
use ospf_math::operator::trailing_zeros::TrailingZeros;

fn fx(x: f64) -> Dec64 {
    Dec64::from_units((x * 1e9).round() as i64)
}

#[test]
fn abs_test() {
    assert_eq!(abs(&0i64), 0);
    assert_eq!(abs(&1i64), 1);
    assert_eq!(abs(&-1i64), 1);
    assert_eq!(abs(&(i64::MIN + 1)), i64::MAX);
    assert_eq!(abs(&i64::MAX), i64::MAX);
    assert_eq!(abs(&0i32), 0);
    assert_eq!(abs(&(i32::MIN + 1)), i32::MAX);
    assert_eq!(abs(&0u64), 0);
    assert_eq!(abs(&u64::MAX), u64::MAX);
    assert_eq!(abs(&fx(-2.5)), fx(2.5));
    assert_eq!(abs(&fx(2.5)), fx(2.5));
}

#[test]
fn cross_test() {
    assert_eq!(cross(&0i64, &0), 0);
    assert_eq!(cross(&1i64, &2), 2);
    assert_eq!(cross(&2i64, &1), 2);
    assert_eq!(cross(&2i64, &5), 10);
    assert_eq!(cross(&5i64, &2), 10);
    assert_eq!(cross(&2u64, &5), 10);
    assert_eq!(cross(&fx(2.0), &fx(5.0)), fx(10.0));
    assert_eq!(cross(&fx(0.5), &fx(0.5)), fx(0.25));
}

#[test]
fn int_div_test() {
    assert_eq!(int_div(&1i64, &2), 0);
    assert_eq!(int_div(&2i64, &1), 2);
    assert_eq!(int_div(&5i64, &2), 2);
    assert_eq!(int_div(&5u64, &2), 2);
    assert_eq!(int_div(&1i32, &2), 0);
    assert_eq!(int_div(&fx(5.0), &fx(2.0)), fx(2.0));
    assert_eq!(int_div(&fx(1.0), &fx(2.0)), fx(0.0));
}

#[test]
fn reciprocal_test() {
    assert_eq!(reciprocal(&0i64), None);
    assert_eq!(reciprocal(&1i64), Some(1));
    assert_eq!(reciprocal(&-1i64), Some(-1));
    assert_eq!(reciprocal(&2i64), Some(0));
    assert_eq!(reciprocal(&0u64), None);
    assert_eq!(reciprocal(&1u64), Some(1));
    assert_eq!(reciprocal(&2u64), Some(0));
    assert_eq!(reciprocal(&fx(0.0)), None);
    assert_eq!(reciprocal(&fx(1.0)), Some(fx(1.0)));
    assert_eq!(reciprocal(&fx(2.0)), Some(fx(0.5)));
}

#[test]
fn trailing_zeros_test() {
    assert_eq!(TrailingZeros::trailing_zeros(&0i64), 64);
    assert_eq!(TrailingZeros::trailing_zeros(&1i64), 0);
    assert_eq!(TrailingZeros::trailing_zeros(&2i64), 1);
    assert_eq!(TrailingZeros::trailing_zeros(&3i64), 0);
    assert_eq!(TrailingZeros::trailing_zeros(&5i64), 0);
    assert_eq!(TrailingZeros::trailing_zeros(&10i64), 1);
    assert_eq!(TrailingZeros::trailing_zeros(&20i64), 2);
    assert_eq!(TrailingZeros::trailing_zeros(&0i32), 32);
    assert_eq!(TrailingZeros::trailing_zeros(&10i32), 1);
    assert_eq!(TrailingZeros::trailing_zeros(&0u64), 64);
    assert_eq!(TrailingZeros::trailing_zeros(&1024u64), 10);
}

#[test]
fn negation() {
    assert_eq!(neg(&5i64), -5);
    assert_eq!(neg(&-5i32), 5);
    assert_eq!(neg(&5u64), u64::MAX - 4);
    assert_eq!(neg(&fx(2.5)), fx(-2.5));
}

#[test]
fn decimal_rounding() {
    assert_eq!(fx(2.7).floor(), fx(2.0));
    assert_eq!(fx(-2.7).floor(), fx(-3.0));
    assert_eq!(fx(2.3).ceil(), fx(3.0));
    assert_eq!(fx(-2.3).ceil(), fx(-2.0));
    assert_eq!(fx(2.7).trunc(), fx(2.0));
    assert_eq!(fx(-2.7).trunc(), fx(-2.0));
    assert_eq!(fx(2.75).fract(), fx(0.75));
    assert_eq!(fx(2.5).round(), fx(3.0));
    assert_eq!(fx(-2.5).round(), fx(-3.0));
    assert_eq!(fx(2.4).round(), fx(2.0));
}

#[test]
fn index_generator() {
    let mut g = IndexGeneratorImpl::new();
    assert_eq!(g.next(), 0);
    assert_eq!(g.next(), 1);
    assert_eq!(g.next(), 2);
    g.flush();
    assert_eq!(g.next(), 0);
}

fn choose_true(x: ConditionalType<i32, i64, true>) -> i32 {
    x
}

fn choose_false(x: ConditionalType<i32, i64, false>) -> i64 {
    x
}

#[test]
fn test_conditional_type() {
    assert!(choose_true(7i32) == 7i32);
    assert!(choose_false(9i64) == 9i64);
}

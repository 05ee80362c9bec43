//! The ordinary algorithms: gcd, lcm, powers, exponential, logarithm.

use ospf_math::bigint::ix;
use ospf_math::bigint::uix;
use ospf_math::concept::Arithmetic;
use ospf_math::concept::Bits;
use ospf_math::concept::PlusSemiGroup;
use ospf_math::concept::TimesGroup;
use ospf_math::concept::TimesSemiGroup;
use ospf_math::dec64::Dec64;
use ospf_math::operator::gcd_lcm::gcd;
use ospf_math::operator::gcd_lcm::gcd_lcm;
use ospf_math::operator::gcd_lcm::gcd_list;
use ospf_math::operator::gcd_lcm::lcm;
use ospf_math::operator::gcd_lcm::lcm_list;
use ospf_math::operator::neg::neg;
use ospf_math::operator::pow::cubic;
use ospf_math::operator::pow::exp;
use ospf_math::operator::pow::pow;
use ospf_math::operator::pow::powf;
use ospf_math::operator::pow::sqrt;
use ospf_math::operator::pow::square;
use ospf_math::ordinary::gcd::gcd_euclid;
use ospf_math::ordinary::gcd::gcd_stein;
use ospf_math::ordinary::log::ln;
use ospf_math::ordinary::log::log;
use ospf_math::ordinary::pow::pow_times_semi_group;
use ospf_math::ordinary::powf::exp as exp_dec;

fn fx(x: f64) -> Dec64 {
    Dec64::from_units((x * 1e9).round() as i64)
}

fn close(a: Dec64, b: Dec64, tol_units: i64) -> bool {
    (a.units() - b.units()).abs() <= tol_units
}

#[test]
fn test_stein() {
    assert_eq!(gcd_stein::<i32>(4, 6), 2);
    assert_eq!(gcd_stein::<i32>(6, 9), 3);
    assert_eq!(gcd_stein::<i32>(24, 30), 6);
}

#[test]
fn test_euclid() {
    assert_eq!(gcd_euclid::<i32>(4, 6), 2);
    assert_eq!(gcd_euclid::<i32>(6, 9), 3);
    assert_eq!(gcd_euclid::<i32>(24, 30), 6);
}

/// The two gcd algorithms answer the same value, pair after pair.
#[test]
fn stein_and_euclid_agree() {
    let pairs: [(u64, u64); 8] = [
        (0, 0),
        (0, 9),
        (7, 0),
        (1, 1),
        (24, 30),
        (1071, 462),
        (123456, 7890),
        (97, 89),
    ];
    for (a, b) in pairs {
        assert_eq!(gcd_stein(a, b), gcd_euclid(a, b));
    }
}

/// Zero is the identity of the greatest common divisor.
#[test]
fn gcd_of_zero() {
    assert_eq!(gcd(&0i64, &9), 9);
    assert_eq!(gcd(&7i64, &0), 7);
}

#[test]
fn lcm_and_pair() {
    assert_eq!(lcm(&4i64, &6), 12);
    assert_eq!(gcd_lcm(&24i64, &30), (6, 120));
    let (g, l) = gcd_lcm(&4u64, &6);
    assert_eq!((g, l), (2, 12));
}

/// The product of gcd and lcm is the product of the operands.
#[test]
fn gcd_lcm_product() {
    for (a, b) in [(4u64, 6), (24, 30), (7, 13), (12, 18)] {
        let (g, l) = gcd_lcm(&a, &b);
        assert_eq!(g * l, a * b);
    }
}

#[test]
fn gcd_lcm_lists() {
    assert_eq!(gcd_list(&[24i64, 30, 18]), 6);
    assert_eq!(gcd_list::<i64>(&[]), 0);
    assert_eq!(lcm_list(&[4i64, 6]), 12);
    assert_eq!(lcm_list(&[2i64, 3, 4]), 12);
    assert_eq!(lcm_list::<i64>(&[]), 1);
}

#[test]
fn integer_powers() {
    assert_eq!(pow(&2i64, 10), 1024);
    assert_eq!(pow(&2i64, 0), 1);
    assert_eq!(pow(&-3i64, 3), -27);
    assert_eq!(square(&5i64), 25);
    assert_eq!(cubic(&3i64), 27);
    assert_eq!(pow(&7u64, 0), 1);
    assert_eq!(pow(&fx(2.0), -2), fx(0.25));
}

/// A negative exponent on a ring-only scalar is the reported error,
/// carrying the offending exponent.
#[test]
fn negative_exponent_is_error() {
    let r = pow_times_semi_group(&2i64, -3);
    match r {
        Err(e) => assert_eq!(e.index, -3),
        Ok(_) => panic!("a negative exponent must be refused"),
    }
    assert_eq!(pow_times_semi_group(&2i64, 0), Ok(1));
    assert_eq!(pow_times_semi_group(&2i64, 5), Ok(32));
}

#[test]
fn exponential_values() {
    assert_eq!(exp_dec(&fx(0.0)), Some(fx(1.0)));
    let e1 = exp_dec(&fx(1.0)).unwrap();
    assert!(close(e1, fx(2.718281828), 100));
    let em1 = exp_dec(&fx(-1.0)).unwrap();
    assert!(close(em1, fx(0.367879441), 100));
    assert_eq!(exp(&fx(0.0)), Some(fx(1.0)));
}

#[test]
fn logarithm_values() {
    assert_eq!(ln(&fx(1.0)), Some(fx(0.0)));
    assert_eq!(ln(&fx(0.0)), None);
    assert_eq!(ln(&fx(-2.0)), None);
    let l = ln(&fx(2.718281828)).unwrap();
    assert!(close(l, fx(1.0), 100));
    let lq = ln(&fx(0.5)).unwrap();
    assert!(close(lq, fx(-0.693147180), 2000));
}

/// The exponential inverts the logarithm, up to the truncation error of
/// the two series.
#[test]
fn exp_of_ln_round_trip() {
    for x in [0.5f64, 1.0, 1.5, 4.0, 10.0] {
        let v = fx(x);
        let l = ln(&v).unwrap();
        let back = exp_dec(&l).unwrap();
        assert!(close(back, v, 100_000), "{x}");
    }
}

#[test]
fn general_logarithms() {
    let lg8 = log(&fx(2.0), &fx(8.0)).unwrap();
    assert!(close(lg8, fx(3.0), 100_000));
    assert_eq!(log(&fx(1.0), &fx(5.0)), None);
    let r = powf(&fx(2.0), &fx(2.0)).unwrap();
    assert!(close(r, fx(4.0), 1_000_000));
    let s = sqrt(&fx(4.0)).unwrap();
    assert!(close(s, fx(2.0), 100_000));
}

#[test]
fn big_integer_arithmetic() {
    let a = ix::from_i64(1_000_000_000_000);
    let b = a.add_val(&a);
    assert_eq!(b.to_i64(), Some(2_000_000_000_000));
    let sq = a.mul_val(&a);
    assert_eq!(sq.to_i64(), None);
    let g = gcd_euclid(ix::from_i64(24), ix::from_i64(30));
    assert_eq!(g.to_i64(), Some(6));
    let p = pow(&ix::from_i64(2), 100);
    let h = pow(&ix::from_i64(2), 50);
    assert!(p.eq_val(&h.mul_val(&h)));
    assert_eq!(p.to_i64(), None);
}

/// Division on the big integers truncates toward zero, like the
/// machine integers' division; the shifts scale by powers of two.
#[test]
fn big_integer_division_and_shifts() {
    let q = ix::from_i64(-7).div_val(&ix::from_i64(2));
    assert_eq!(q.to_i64(), Some(-3));
    let r = ix::from_i64(-7).rem_val(&ix::from_i64(2));
    assert_eq!(r.to_i64(), Some(-1));
    assert_eq!(ix::from_i64(40).shr_k(3).to_i64(), Some(5));
    assert_eq!(ix::from_i64(5).shl_k(3).to_i64(), Some(40));
    assert!(ix::from_i64(6).is_even());
    assert!(!ix::from_i64(7).is_even());
    let uq = uix::from_u64(7).div_val(&uix::from_u64(2));
    assert_eq!(uq.to_u64(), Some(3));
    let ur = uix::from_u64(7).rem_val(&uix::from_u64(2));
    assert_eq!(ur.to_u64(), Some(1));
    assert_eq!(uix::from_u64(40).shr_k(3).to_u64(), Some(5));
    assert_eq!(uix::from_u64(5).shl_k(3).to_u64(), Some(40));
}

#[test]
fn big_unsigned_arithmetic() {
    let a = uix::from_u64(30);
    let b = uix::from_u64(24);
    assert_eq!(a.dist(&b).to_u64(), Some(6));
    let g = gcd_euclid(uix::from_u64(1071), uix::from_u64(462));
    assert_eq!(g.to_u64(), Some(21));
    let n = neg(&uix::from_u64(5));
    assert_eq!(n.to_i64(), Some(-5));
}

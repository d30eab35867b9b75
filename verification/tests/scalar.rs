use morse_kernel::expr::Expr;
use morse_kernel::interval::Interval;
use morse_kernel::morse::morse_index;
use morse_kernel::scalar::{
    Scalar, FOUR_BITS, HALF_BITS, INFINITY_BITS, MINUS_INFINITY_BITS, MINUS_ONE_BITS, ONE_BITS,
    ZERO_BITS,
};

fn s(v: f64) -> Scalar {
    Scalar::from_bits(v.to_bits())
}

fn f(v: Scalar) -> f64 {
    f64::from_bits(v.to_bits())
}

const SAMPLES: [f64; 16] = [
    0.0,
    -0.0,
    1.0,
    -1.0,
    0.5,
    -0.5,
    f64::MIN_POSITIVE,
    -f64::MIN_POSITIVE,
    5e-324,
    -5e-324,
    f64::MAX,
    f64::MIN,
    f64::INFINITY,
    f64::NEG_INFINITY,
    f64::NAN,
    -1e-12,
];

#[test]
fn bits_go_in_and_out_unchanged() {
    for v in SAMPLES {
        assert_eq!(Scalar::from_bits(v.to_bits()).to_bits(), v.to_bits());
        assert_eq!(Scalar::from_bits(v.to_bits()).bits, v.to_bits());
    }
    assert_ne!(s(0.0), s(-0.0));
    assert_eq!(s(f64::NAN), s(f64::NAN));
}

#[test]
fn finite_as_the_double_is() {
    for v in SAMPLES {
        assert_eq!(s(v).is_finite(), v.is_finite());
    }
    assert!(!Scalar::from_bits(0xfff8_0000_0000_0001).is_finite());
    assert!(!Scalar::from_bits(0x7ff0_0000_0000_0001).is_finite());
}

#[test]
fn negative_as_the_double_is() {
    for v in SAMPLES {
        assert_eq!(s(v).is_negative(), v < 0.0);
    }
    assert!(!s(-f64::NAN).is_negative());
    assert!(!Scalar::from_bits(0xfff0_0000_0000_0001).is_negative());
}

#[test]
fn the_named_bit_patterns() {
    assert_eq!(ZERO_BITS, 0.0f64.to_bits());
    assert_eq!(HALF_BITS, 0.5f64.to_bits());
    assert_eq!(ONE_BITS, 1.0f64.to_bits());
    assert_eq!(FOUR_BITS, 4.0f64.to_bits());
    assert_eq!(MINUS_ONE_BITS, (-1.0f64).to_bits());
    assert_eq!(INFINITY_BITS, f64::INFINITY.to_bits());
    assert_eq!(MINUS_INFINITY_BITS, f64::NEG_INFINITY.to_bits());
}

#[test]
fn morse_index_counts_negative_eigenvalues() {
    assert_eq!(morse_index([s(2.0), s(2.0), s(2.0)]), 0);
    assert_eq!(morse_index([s(-2.0), s(2.0), s(2.0)]), 1);
    assert_eq!(morse_index([s(2.0), s(-1e-300), s(2.0)]), 1);
    assert_eq!(morse_index([s(2.0), s(-2.0), s(-0.5)]), 2);
    assert_eq!(morse_index([s(-2.0), s(-2.0), s(-2.0)]), 3);
    assert_eq!(morse_index([s(0.0), s(-0.0), s(f64::NAN)]), 0);
    assert_eq!(morse_index([s(f64::NEG_INFINITY), s(f64::INFINITY), s(-f64::NAN)]), 1);
}

#[test]
fn builders_make_the_node_they_are_named_after() {
    let (x, y) = (|| Box::new(Expr::X), || Box::new(Expr::Y));
    assert_eq!(Expr::c(s(2.5)), Expr::Const(s(2.5)));
    assert_eq!(Expr::X.add(Expr::Y), Expr::Add(x(), y()));
    assert_eq!(Expr::X.sub(Expr::Y), Expr::Sub(x(), y()));
    assert_eq!(Expr::X.mul(Expr::Y), Expr::Mul(x(), y()));
    assert_eq!(Expr::X.div(Expr::Y), Expr::Div(x(), y()));
    assert_eq!(Expr::X.neg(), Expr::Neg(x()));
    assert_eq!(Expr::X.sin(), Expr::Sin(x()));
    assert_eq!(Expr::X.cos(), Expr::Cos(x()));
    assert_eq!(Expr::X.exp(), Expr::Exp(x()));
}

#[test]
fn a_copy_is_the_same_tree() {
    let e = Expr::SMin {
        a: Box::new(Expr::Translate {
            expr: Box::new(Expr::X.mul(Expr::c(s(2.0)))),
            dx: s(1.0),
            dy: s(2.0),
            dz: s(3.0),
        }),
        b: Box::new(Expr::RotateZ { expr: Box::new(Expr::Y.sin()), deg: s(10.0) }),
        k: s(0.5),
    };
    assert_eq!(e.duplicate(), e);
    assert_eq!(e.clone(), e);
}

#[test]
fn total_order_as_the_doubles_have_it() {
    let mut all: Vec<f64> = SAMPLES.to_vec();
    all.push(-f64::NAN);
    all.push(f64::from_bits(0x7ff0_0000_0000_0001));
    all.push(f64::from_bits(0xffff_ffff_ffff_ffff));
    all.push(f64::from_bits(0x7fff_ffff_ffff_ffff));
    for a in &all {
        for b in &all {
            let le = a.total_cmp(b) != std::cmp::Ordering::Greater;
            assert_eq!(s(*a).total_le(s(*b)), le);
            if !a.is_nan() && !b.is_nan() {
                if s(*a).total_le(s(*b)) {
                    assert!(a <= b);
                }
                if a < b {
                    assert!(s(*a).total_le(s(*b)) && !s(*b).total_le(s(*a)));
                }
            }
        }
    }
    assert!(s(-0.0).total_le(s(0.0)));
    assert!(!s(0.0).total_le(s(-0.0)));
}

#[test]
fn min_and_max_pick_the_lower_and_the_higher() {
    assert_eq!(s(1.0).min(s(2.0)), s(1.0));
    assert_eq!(s(2.0).min(s(1.0)), s(1.0));
    assert_eq!(s(1.0).max(s(2.0)), s(2.0));
    assert_eq!(s(-1.0).min(s(-2.0)), s(-2.0));
    assert_eq!(s(-1.0).max(s(-2.0)), s(-1.0));
    assert_eq!(s(-0.0).min(s(0.0)), s(-0.0));
    assert_eq!(s(0.0).min(s(-0.0)), s(-0.0));
    assert_eq!(s(-0.0).max(s(0.0)), s(0.0));
    assert_eq!(s(f64::NEG_INFINITY).min(s(f64::MIN)), s(f64::NEG_INFINITY));
    assert_eq!(s(f64::INFINITY).max(s(f64::MAX)), s(f64::INFINITY));
    for a in SAMPLES {
        for b in SAMPLES {
            if a.is_nan() || b.is_nan() || a == b {
                continue;
            }
            assert_eq!(s(a).min(s(b)), s(a.min(b)));
            assert_eq!(s(a).max(s(b)), s(a.max(b)));
        }
    }
    for a in SAMPLES {
        for b in SAMPLES {
            let (lo, hi) = (s(a).min(s(b)), s(a).max(s(b)));
            assert!(lo == s(a) || lo == s(b));
            assert!(hi == s(a) || hi == s(b));
            assert!(lo.total_le(s(a)) && lo.total_le(s(b)));
            assert!(s(a).total_le(hi) && s(b).total_le(hi));
        }
    }
}

#[test]
fn sign_tests_and_negation_as_the_doubles_have_them() {
    let mut all: Vec<f64> = SAMPLES.to_vec();
    all.push(-f64::NAN);
    all.push(f64::from_bits(0x7ff0_0000_0000_0001));
    all.push(f64::from_bits(0xfff0_0000_0000_0001));
    all.push(f64::from_bits(0xffff_ffff_ffff_ffff));
    for v in all {
        assert_eq!(s(v).is_nan(), v.is_nan());
        assert_eq!(s(v).is_positive(), v > 0.0);
        assert_eq!(s(v).is_negative(), v < 0.0);
        assert_eq!(s(v).neg(), s(-v));
        assert_eq!(s(v).neg().neg(), s(v));
    }
    assert_eq!(s(0.0).neg(), s(-0.0));
    assert_eq!(s(-2.5).neg(), s(2.5));
    assert_eq!(s(f64::INFINITY).neg(), s(f64::NEG_INFINITY));
}

#[test]
fn signs_of_the_lower_and_the_higher() {
    for a in SAMPLES {
        for b in SAMPLES {
            if a.is_nan() || b.is_nan() {
                continue;
            }
            assert_eq!(s(a).min(s(b)).is_negative(), a < 0.0 || b < 0.0);
            assert_eq!(s(a).max(s(b)).is_negative(), a < 0.0 && b < 0.0);
            assert_eq!(s(a).max(s(b).neg()).is_negative(), a < 0.0 && b > 0.0);
        }
    }
}

fn iv(lo: f64, hi: f64) -> Interval {
    Interval::new(s(lo), s(hi))
}

#[test]
fn interval_builders() {
    assert_eq!(iv(-2.0, 3.0), Interval { lo: s(-2.0), hi: s(3.0) });
    assert_eq!(Interval::point(s(1.5)), iv(1.5, 1.5));
    assert_eq!(Interval::unit(), iv(-1.0, 1.0));
    assert_eq!(Interval::whole(), iv(f64::NEG_INFINITY, f64::INFINITY));
}

#[test]
fn interval_of_the_opposite_the_lower_and_the_higher() {
    assert_eq!(iv(-2.0, 3.0).neg(), iv(-3.0, 2.0));
    assert_eq!(iv(0.0, 1.0).neg(), iv(-1.0, -0.0));
    assert_eq!(iv(-2.0, 3.0).min(iv(-1.0, 1.0)), iv(-2.0, 1.0));
    assert_eq!(iv(-2.0, 3.0).max(iv(-1.0, 1.0)), iv(-1.0, 3.0));
    assert_eq!(iv(1.0, 2.0).min(iv(5.0, 6.0)), iv(1.0, 2.0));
    assert_eq!(iv(1.0, 2.0).max(iv(5.0, 6.0)), iv(5.0, 6.0));
}

#[test]
fn intervals_enclose_what_they_bound() {
    let grid: Vec<f64> = (-6..=6).map(|i| i as f64 * 0.5).collect();
    let (a, b) = (iv(-2.0, 1.5), iv(-0.5, 3.0));
    for u in &grid {
        for v in &grid {
            if *u < -2.0 || *u > 1.5 || *v < -0.5 || *v > 3.0 {
                continue;
            }
            let n = a.neg();
            assert!(f(n.lo) <= -*u && -*u <= f(n.hi));
            let lo = a.min(b);
            assert!(f(lo.lo) <= u.min(*v) && u.min(*v) <= f(lo.hi));
            let hi = a.max(b);
            assert!(f(hi.lo) <= u.max(*v) && u.max(*v) <= f(hi.hi));
        }
    }
}

#[test]
fn straddling_zero() {
    assert!(iv(-1.0, 1.0).straddles_zero());
    assert!(iv(0.0, 1.0).straddles_zero());
    assert!(iv(-1.0, 0.0).straddles_zero());
    assert!(iv(-0.0, -0.0).straddles_zero());
    assert!(iv(f64::NEG_INFINITY, f64::INFINITY).straddles_zero());
    assert!(!iv(0.5, 1.0).straddles_zero());
    assert!(!iv(-1.0, -0.5).straddles_zero());
    assert!(!iv(f64::NAN, 1.0).straddles_zero());
    assert!(!iv(-1.0, f64::NAN).straddles_zero());
    for lo in SAMPLES {
        for hi in SAMPLES {
            assert_eq!(iv(lo, hi).straddles_zero(), lo <= 0.0 && hi >= 0.0);
        }
    }
}

use raytracer::intersect::FACING_THRESHOLD_KEY;
use raytracer::scalar::{Scalar, INFINITY_KEY, SIGN_BIT};

fn key(v: f64) -> i64 {
    Scalar::from_bits(v.to_bits()).unwrap().order_key()
}

#[test]
fn keys_are_ordered_as_the_numbers() {
    let samples = [
        f64::NEG_INFINITY,
        -1.0e300,
        -7.5,
        -1.0,
        -1.0e-300,
        0.0,
        5.0e-324,
        1.0e-6,
        0.5,
        1.0,
        4.0,
        1.0e300,
        f64::INFINITY,
    ];
    for i in 0..samples.len() {
        for j in 0..samples.len() {
            assert_eq!(
                samples[i] < samples[j],
                key(samples[i]) < key(samples[j]),
                "{} against {}",
                samples[i],
                samples[j]
            );
        }
    }
}

#[test]
fn both_zeros_share_a_key() {
    assert_eq!(key(0.0), 0);
    assert_eq!(key(-0.0), 0);
    assert_eq!(Scalar::zero().order_key(), 0);
}

#[test]
fn exact_keys_of_known_values() {
    assert_eq!(key(1.0), 0x3FF0_0000_0000_0000);
    assert_eq!(key(-3.0), -0x4008_0000_0000_0000);
    assert_eq!(key(f64::INFINITY), INFINITY_KEY);
    assert_eq!(key(f64::NEG_INFINITY), -INFINITY_KEY);
    assert_eq!(Scalar::infinity().order_key(), INFINITY_KEY);
    assert_eq!(key(1e-6), FACING_THRESHOLD_KEY);
}

#[test]
fn undefined_results_have_no_key() {
    assert_eq!(Scalar::from_bits(f64::NAN.to_bits()), None);
    assert_eq!(Scalar::from_bits((-f64::NAN).to_bits()), None);
    assert_eq!(Scalar::from_bits(0x7FF0_0000_0000_0001), None);
    assert_eq!(Scalar::from_bits(u64::MAX), None);
    assert!(Scalar::from_bits(0x7FF0_0000_0000_0000).is_some());
    assert!(Scalar::from_bits(0xFFF0_0000_0000_0000).is_some());
}

#[test]
fn encoding_comes_back() {
    for v in [1.0f64, -3.0, 0.0, 1e-6, -2.5e10, f64::INFINITY, f64::NEG_INFINITY, f64::MAX, f64::MIN] {
        let s = Scalar::from_bits(v.to_bits()).unwrap();
        assert_eq!(s.to_bits(), v.to_bits());
        assert_eq!(f64::from_bits(s.to_bits()), v);
    }
    let negative_zero = Scalar::from_bits(SIGN_BIT).unwrap();
    assert_eq!(negative_zero.to_bits(), SIGN_BIT);
    assert_eq!(negative_zero.order_key(), 0);
    assert!(f64::from_bits(negative_zero.to_bits()).is_sign_negative());
}

#[test]
fn finite_leaves_out_the_infinities() {
    assert!(Scalar::from_bits(1.0f64.to_bits()).unwrap().finite());
    assert!(Scalar::from_bits(f64::MAX.to_bits()).unwrap().finite());
    assert!(Scalar::from_bits(f64::MIN.to_bits()).unwrap().finite());
    assert!(!Scalar::infinity().finite());
    assert!(!Scalar::from_bits(f64::NEG_INFINITY.to_bits()).unwrap().finite());
}

#[test]
fn less_than_agrees_with_the_numbers() {
    let samples = [f64::NEG_INFINITY, -2.0, -0.0, 0.0, 1.0e-6, 3.5, f64::INFINITY, f64::NAN, -f64::NAN];
    for a in samples {
        for b in samples {
            let left = Scalar::new(a.to_bits());
            let right = Scalar::new(b.to_bits());
            assert_eq!(left.less_than(&right), a < b, "{} against {}", a, b);
        }
    }
}

#[test]
fn any_encoding_is_taken_and_told_apart() {
    for v in [0.0f64, -1.5, f64::INFINITY, f64::NEG_INFINITY, f64::NAN, -f64::NAN] {
        let s = Scalar::new(v.to_bits());
        assert_eq!(s.to_bits(), v.to_bits());
        assert_eq!(s.defined(), !v.is_nan(), "{}", v);
        assert_eq!(s.negative(), v < 0.0, "{}", v);
        assert_eq!(s.finite(), v.is_finite(), "{}", v);
    }
    assert!(!Scalar::new((-0.0f64).to_bits()).negative());
}

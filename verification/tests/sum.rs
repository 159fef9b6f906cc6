use excel::ieee::{is_nan, NEG_INF_BITS, POS_INF_BITS, POS_ZERO_BITS};
use excel::{greet, sum};

fn bits_of(xs: &[f64]) -> Vec<u64> {
    xs.iter().map(|x| x.to_bits()).collect()
}

#[test]
fn empty_sum_is_zero() {
    let r = sum(&Vec::new());
    assert_eq!(r, POS_ZERO_BITS);
    assert_eq!(f64::from_bits(r), 0.0);
}

#[test]
fn singleton_sum_is_identity() {
    for a in [42.5, -3.25, 0.0, 1.0e-308, 5.0e-324, 1.7976931348623157e308, -0.0] {
        let r = f64::from_bits(sum(&bits_of(&[a])));
        assert_eq!(r, a);
    }
}

#[test]
fn negative_zero_singleton_sums_to_positive_zero() {
    let r = sum(&bits_of(&[-0.0]));
    assert_eq!(r, POS_ZERO_BITS);
    assert_ne!(r, (-0.0f64).to_bits());
}

#[test]
fn three_values() {
    let r = f64::from_bits(sum(&bits_of(&[1.0, 2.0, 3.0])));
    assert_eq!(r, 6.0);
}

#[test]
fn nan_propagates() {
    let r = sum(&bits_of(&[1.0, f64::NAN, 3.0]));
    assert!(f64::from_bits(r).is_nan());
    assert!(is_nan(r));
}

#[test]
fn opposite_infinities_give_nan() {
    let r = sum(&bits_of(&[f64::INFINITY, f64::NEG_INFINITY]));
    assert!(f64::from_bits(r).is_nan());
    assert!(is_nan(r));
}

#[test]
fn infinity_absorbs_finite() {
    let r = f64::from_bits(sum(&bits_of(&[f64::INFINITY, 1.0])));
    assert_eq!(r, f64::INFINITY);
}

#[test]
fn matches_left_to_right_fold() {
    let xs = [0.1, 0.2, 0.3, -1.5, 1.0e16, 1.0, -1.0e16];
    let mut reference: f64 = 0.0;
    for x in xs {
        reference += x;
    }
    let r = sum(&bits_of(&xs));
    assert_eq!(r, reference.to_bits());
}

#[test]
fn accumulation_order_is_left_to_right() {
    // Overflow makes the order observable: folded left to right the partial
    // sums reach +infinity before the negative term, so the result is
    // +infinity, while summing the same multiset in another order stays
    // finite. The expected value is the left-to-right reference fold.
    let xs = [1.0e308, 1.0e308, -1.0e308];
    let mut reference: f64 = 0.0;
    for x in xs {
        reference += x;
    }
    assert_eq!(reference, f64::INFINITY);
    let r = sum(&bits_of(&xs));
    assert_eq!(r, POS_INF_BITS);
    assert_eq!(r, reference.to_bits());

    let reordered: f64 = -1.0e308 + 1.0e308 + 1.0e308;
    assert_ne!(reordered.to_bits(), r);
}

#[test]
fn rounding_is_order_sensitive_but_reproducible() {
    // 0.1 + 0.2 rounds up, so the running sum is not the closest double to
    // 3/10 and the final value differs from the one-step rounding of 0.6.
    let r = f64::from_bits(sum(&bits_of(&[0.1, 0.2, 0.3])));
    assert_eq!(r, 0.1 + 0.2 + 0.3);
    assert_ne!(r, 0.6);
}

#[test]
fn nan_classification() {
    assert!(is_nan(f64::NAN.to_bits()));
    assert!(is_nan(0x7FF8_0000_0000_0000));
    assert!(is_nan(0xFFF0_0000_0000_0001));
    assert!(!is_nan(POS_INF_BITS));
    assert!(!is_nan(NEG_INF_BITS));
    assert!(!is_nan(1.0f64.to_bits()));
    assert!(!is_nan(POS_ZERO_BITS));
    assert_eq!(POS_INF_BITS, f64::INFINITY.to_bits());
    assert_eq!(NEG_INF_BITS, f64::NEG_INFINITY.to_bits());
}

#[test]
fn greeting() {
    assert_eq!(greet(), "Hello from Rust!");
}

use paprika_helpers::float::Float;

fn amount(x: f64) -> Float {
    Float::from_bits(x.to_bits())
}

fn samples() -> Vec<f64> {
    vec![
        0.0,
        -0.0,
        1.0,
        -1.0,
        1.5,
        -1.5,
        2.5e-320,
        -2.5e-320,
        f64::MIN_POSITIVE,
        f64::MAX,
        f64::MIN,
        f64::INFINITY,
        f64::NEG_INFINITY,
        f64::NAN,
        1_000_000.0,
        999_999.999,
        1e300,
        -1e300,
        3.0,
    ]
}

#[test]
fn comparisons_agree_with_the_machine() {
    for &a in samples().iter() {
        for &b in samples().iter() {
            assert_eq!(amount(a).lt(amount(b)), a < b, "{} < {}", a, b);
            assert_eq!(amount(a).le(amount(b)), a <= b, "{} <= {}", a, b);
            assert_eq!(amount(a).gt(amount(b)), a > b, "{} > {}", a, b);
            assert_eq!(amount(a).ge(amount(b)), a >= b, "{} >= {}", a, b);
            assert_eq!(amount(a).same(amount(b)), a == b, "{} == {}", a, b);
        }
    }
}

#[test]
fn classification_agrees_with_the_machine() {
    for &a in samples().iter() {
        assert_eq!(amount(a).is_nan(), a.is_nan());
        assert_eq!(amount(a).is_finite(), a.is_finite());
        assert_eq!(amount(a).is_negative(), a.is_sign_negative());
        assert_eq!(amount(a).abs().to_bits(), a.abs().to_bits());
    }
}

#[test]
fn larger_and_smaller_pass_over_nan() {
    for &a in samples().iter() {
        for &b in samples().iter() {
            let hi = f64::from_bits(amount(a).max(amount(b)).to_bits());
            let lo = f64::from_bits(amount(a).min(amount(b)).to_bits());
            if a.is_nan() && b.is_nan() {
                assert!(hi.is_nan() && lo.is_nan());
            } else {
                assert_eq!(hi, a.max(b));
                assert_eq!(lo, a.min(b));
            }
        }
    }
    assert_eq!(amount(f64::NAN).max(amount(2.0)).to_bits(), 2.0f64.to_bits());
    assert_eq!(amount(2.0).min(amount(f64::NAN)).to_bits(), 2.0f64.to_bits());
}

#[test]
fn whole_numbers_encode_exactly() {
    let wholes: Vec<u32> = vec![0, 1, 2, 3, 7, 8, 100, 255, 256, 1_000_000, 10_000_000, 100_000_000, 123_456_789, 0x7fff_ffff, 0x8000_0000, u32::MAX];
    for &n in wholes.iter() {
        assert_eq!(Float::from_u32(n).to_bits(), (n as f64).to_bits(), "{}", n);
    }
    assert_eq!(Float::from_u32(1_000_000).to_bits(), 0x412e_8480_0000_0000);
    assert_eq!(Float::from_u32(u32::MAX).to_bits(), 0x41ef_ffff_ffe0_0000);
}

#[test]
fn named_values_have_their_bits() {
    assert_eq!(Float::zero().to_bits(), 0.0f64.to_bits());
    assert_eq!(Float::infinity().to_bits(), f64::INFINITY.to_bits());
    assert_eq!(Float::neg_infinity().to_bits(), f64::NEG_INFINITY.to_bits());
    assert_eq!(amount(-2.5).ordering_key(), -(2.5f64.to_bits() as i64));
    assert_eq!(amount(-0.0).ordering_key(), 0);
}

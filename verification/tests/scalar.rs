use vendek::scalar::{Scalar, ScalarRange, EXPONENT_BIAS, HIDDEN_BIT, ONE_BITS, ZERO_BITS};

fn expect(v: u32) {
    assert_eq!(Scalar::from_u32(v).bits, (v as f32).to_bits(), "value {}", v);
}

#[test]
fn named_encodings_are_those_of_the_numbers() {
    assert_eq!(ZERO_BITS, 0.0f32.to_bits());
    assert_eq!(ONE_BITS, 1.0f32.to_bits());
    assert_eq!(HIDDEN_BIT, 1 << 23);
    assert_eq!(EXPONENT_BIAS, 127);
    assert_eq!(Scalar::zero().bits, 0.0f32.to_bits());
    assert_eq!(Scalar::one().bits, 1.0f32.to_bits());
    assert_eq!(Scalar::from_bits(0x4049_0FDB).bits, 0x4049_0FDB);
}

#[test]
fn flags_travel_as_one_and_zero() {
    assert_eq!(f32::from_bits(Scalar::from_flag(true).bits), 1.0);
    assert_eq!(f32::from_bits(Scalar::from_flag(false).bits), 0.0);
}

#[test]
fn small_integers_convert_exactly() {
    assert_eq!(Scalar::from_u32(0).bits, 0);
    assert_eq!(Scalar::from_u32(1).bits, 0x3F80_0000);
    assert_eq!(Scalar::from_u32(2).bits, 0x4000_0000);
    assert_eq!(Scalar::from_u32(3).bits, 0x4040_0000);
    assert_eq!(Scalar::from_u32(800).bits, 0x4448_0000);
    assert_eq!(Scalar::from_u32(600).bits, 0x4416_0000);
    for v in 0..5000u32 {
        expect(v);
    }
}

#[test]
fn integers_up_to_twenty_four_bits_convert_exactly() {
    for shift in 0..24u32 {
        let p = 1u32 << shift;
        expect(p);
        expect(p - 1);
        expect(p + 1);
        expect(p | (p >> 1) | 1);
    }
    expect((1 << 24) - 1);
    expect(1 << 24);
}

#[test]
fn larger_integers_round_to_nearest_with_ties_to_even() {
    // 2^24 + 1 lies halfway between two neighbours; the even one is below.
    assert_eq!(Scalar::from_u32((1 << 24) + 1).bits, ((1u32 << 24) as f32).to_bits());
    // 2^24 + 3 lies halfway too; the even one is above.
    assert_eq!(Scalar::from_u32((1 << 24) + 3).bits, (((1u32 << 24) + 4) as f32).to_bits());
    for shift in 24..32u32 {
        let p = 1u32 << shift;
        let step = 1u32 << (shift - 23);
        let half = step / 2;
        for base in [p, p + step, p + 5 * step, p + (p - step)] {
            expect(base);
            expect(base + half - 1);
            expect(base + half);
            expect(base + half + (if half > 1 { 1 } else { 0 }));
            expect(base + (step - 1));
        }
    }
}

#[test]
fn the_largest_integers_carry_into_the_exponent() {
    assert_eq!(Scalar::from_u32(u32::MAX).bits, 0x4F80_0000);
    expect(u32::MAX);
    expect(u32::MAX - 1);
    expect(u32::MAX - 127);
    expect(u32::MAX - 128);
    expect(u32::MAX - 129);
    expect(0x7FFF_FFFF);
    expect(0x8000_0000);
    expect(0x0100_0001);
    expect(0x01FF_FFFF);
}

#[test]
fn a_sweep_of_integers_agrees_with_the_machine() {
    let mut v: u32 = 1;
    for _ in 0..200_000 {
        expect(v);
        v = v.wrapping_mul(1_664_525).wrapping_add(1_013_904_223);
    }
}

fn s(x: f32) -> Scalar {
    Scalar::from_bits(x.to_bits())
}

#[test]
fn scalars_compare_as_the_numbers_they_encode() {
    let samples = [
        f32::NEG_INFINITY,
        f32::MIN,
        -1.0e10,
        -10.0,
        -1.5,
        -1.0,
        -0.02,
        -f32::MIN_POSITIVE,
        -1.0e-45,
        -0.0,
        0.0,
        1.0e-45,
        f32::MIN_POSITIVE,
        0.01,
        0.02,
        0.08,
        0.1,
        0.5,
        1.0,
        2.0,
        5.0,
        10.0,
        16_777_216.0,
        f32::MAX,
        f32::INFINITY,
    ];
    for a in samples {
        for b in samples {
            assert_eq!(s(a).below(&s(b)), a < b, "{} < {}", a, b);
        }
    }
}

#[test]
fn a_range_includes_its_low_end_and_excludes_its_high_end() {
    let range = ScalarRange { low: s(-10.0), high: s(10.0) };
    assert!(range.holds(s(-10.0)));
    assert!(range.holds(s(-9.999)));
    assert!(range.holds(s(-0.0)));
    assert!(range.holds(s(0.0)));
    assert!(range.holds(s(9.999_999)));
    assert!(!range.holds(s(10.0)));
    assert!(!range.holds(s(-10.000_001)));
    assert!(!range.holds(s(f32::INFINITY)));
    assert!(!range.holds(s(f32::NEG_INFINITY)));
    assert!(!range.holds(s(f32::NAN)));
    assert!(!range.holds(s(-f32::NAN)));
    let range = ScalarRange { low: s(0.02), high: s(0.08) };
    assert!(range.holds(s(0.02)));
    assert!(range.holds(s(0.05)));
    assert!(!range.holds(s(0.08)));
    assert!(!range.holds(s(0.019_999)));
    assert!(!range.holds(s(-0.05)));
}

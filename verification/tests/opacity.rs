use window_control::opacity::{
    alpha_channel, FULL_ALPHA, FULL_OPACITY_BITS, HALF_OPACITY_BITS, MIN_ALPHA, MIN_OPACITY_BITS,
};

fn alpha(opacity: f64) -> u8 {
    alpha_channel(opacity.to_bits())
}

/// The nearest integer to 255 times a number from 0.25 up to 1.0, computed
/// in units of 2^-54.
fn expected_within_range(opacity: f64) -> u8 {
    let bits = opacity.to_bits();
    let exponent = (bits >> 52) & 0x7FF;
    let significand = (1u128 << 52) | (bits as u128 & ((1u128 << 52) - 1));
    assert!((1021..=1023).contains(&exponent));
    let units = significand << (exponent - 1021);
    ((2 * 255 * units + (1u128 << 54)) >> 55) as u8
}

#[test]
fn opacity_below_range_gives_least_alpha() {
    assert_eq!(alpha(0.1), 76);
    assert_eq!(alpha(0.0), 76);
    assert_eq!(alpha(0.299), 76);
    assert_eq!(alpha(f64::MIN_POSITIVE), 76);
    assert_eq!(alpha(5e-324), 76);
}

#[test]
fn opacity_above_range_gives_full_alpha() {
    assert_eq!(alpha(2.0), 255);
    assert_eq!(alpha(1.0000000000000002), 255);
    assert_eq!(alpha(1e300), 255);
    assert_eq!(alpha(f64::MAX), 255);
}

#[test]
fn bounds_of_range_give_bounds_of_alpha() {
    assert_eq!(alpha(0.3), 76);
    assert_eq!(alpha(1.0), 255);
    assert_eq!(0.3f64.to_bits(), MIN_OPACITY_BITS);
    assert_eq!(0.5f64.to_bits(), HALF_OPACITY_BITS);
    assert_eq!(1.0f64.to_bits(), FULL_OPACITY_BITS);
    assert_eq!(MIN_ALPHA, 76);
    assert_eq!(FULL_ALPHA, 255);
}

#[test]
fn alpha_is_rounded_to_nearest() {
    assert_eq!(alpha(0.5), 128);
    assert_eq!(alpha(0.75), 191);
    assert_eq!(alpha(0.9), 230);
    assert_eq!(alpha(0.6), 153);
    assert_eq!(alpha(0.4), 102);
    assert_eq!(alpha(1.0 / 3.0), 85);
    assert_eq!(alpha(0.302), 77);
    assert_eq!(alpha(0.998), 254);
    assert_eq!(alpha(0.999), 255);
}

#[test]
fn neighbours_of_the_bounds() {
    assert_eq!(alpha_channel(MIN_OPACITY_BITS - 1), 76);
    assert_eq!(alpha_channel(MIN_OPACITY_BITS + 1), 77);
    assert_eq!(alpha_channel(HALF_OPACITY_BITS - 1), 127);
    assert_eq!(alpha_channel(HALF_OPACITY_BITS + 1), 128);
    assert_eq!(alpha_channel(FULL_OPACITY_BITS - 1), 255);
    assert_eq!(alpha_channel(FULL_OPACITY_BITS + 1), 255);
}

#[test]
fn negative_opacity_gives_least_alpha() {
    assert_eq!(alpha(-0.0), 76);
    assert_eq!(alpha(-0.5), 76);
    assert_eq!(alpha(-1.0), 76);
    assert_eq!(alpha(-2.0), 76);
    assert_eq!(alpha(f64::MIN), 76);
}

#[test]
fn infinite_opacity_is_clamped() {
    assert_eq!(alpha(f64::INFINITY), 255);
    assert_eq!(alpha(f64::NEG_INFINITY), 76);
}

#[test]
fn not_a_number_gives_least_alpha() {
    assert_eq!(alpha(f64::NAN), 76);
    assert_eq!(alpha(-f64::NAN), 76);
    assert_eq!(alpha_channel(0x7FF0_0000_0000_0001), 76);
    assert_eq!(alpha_channel(0xFFFF_FFFF_FFFF_FFFF), 76);
    assert_eq!(alpha_channel(0x7FF8_0000_0000_0000), 76);
    assert_eq!(alpha_channel(0x7FF0_0000_0000_0000), 255);
    assert_eq!(alpha_channel(0xFFF0_0000_0000_0000), 76);
}

#[test]
fn alpha_agrees_with_exact_rounding_on_a_sweep() {
    for step in 0..=7000u32 {
        let opacity = 0.3 + f64::from(step) * 0.0001;
        if opacity > 1.0 {
            assert_eq!(alpha(opacity), 255);
        } else {
            assert_eq!(alpha(opacity), expected_within_range(opacity), "opacity {}", opacity);
        }
    }
}

#[test]
fn alpha_is_within_half_of_the_scaled_opacity() {
    for step in 0..=1000u32 {
        let opacity = f64::from(step) / 1000.0;
        let clamped = opacity.clamp(0.3, 1.0);
        let distance = (f64::from(alpha(opacity)) - clamped * 255.0).abs();
        assert!(distance <= 0.5 + 1e-9, "opacity {}", opacity);
    }
}

#[test]
fn alpha_stays_in_range_for_every_pattern() {
    let mut bits: u64 = 0x9E37_79B9_7F4A_7C15;
    for _ in 0..20_000 {
        bits = bits.wrapping_mul(6364136223846793005).wrapping_add(1442695040888963407);
        let value = f64::from_bits(bits);
        let got = alpha_channel(bits);
        assert!((76..=255).contains(&got));
        if value.is_nan() || value <= 0.3 {
            assert_eq!(got, 76);
        }
        if value >= 1.0 {
            assert_eq!(got, 255);
        }
    }
}

#[test]
fn alpha_never_falls_as_opacity_rises() {
    let mut last = 0u8;
    for step in 0..=20_000u32 {
        let opacity = -0.5 + f64::from(step) * 0.0001;
        let got = alpha(opacity);
        assert!(got >= last, "opacity {}", opacity);
        last = got;
    }
    assert_eq!(last, 255);
}

#[test]
fn alpha_agrees_with_exact_rounding_on_scattered_patterns() {
    let span = FULL_OPACITY_BITS - MIN_OPACITY_BITS;
    let mut seed: u64 = 0x2545_F491_4F6C_DD1D;
    for _ in 0..50_000 {
        seed ^= seed << 13;
        seed ^= seed >> 7;
        seed ^= seed << 17;
        let bits = MIN_OPACITY_BITS + seed % (span + 1);
        assert_eq!(alpha_channel(bits), expected_within_range(f64::from_bits(bits)), "{:#x}", bits);
    }
}

#[test]
fn alpha_changes_where_the_scaled_opacity_crosses_a_half() {
    for alpha in 77..=255u32 {
        let crossing = (f64::from(alpha) - 0.5) / 255.0;
        let bits = crossing.to_bits();
        let around: Vec<u8> = (bits - 4..=bits + 4).map(alpha_channel).collect();
        assert!(around.windows(2).all(|pair| pair[0] <= pair[1]));
        assert_eq!(around[0], (alpha - 1) as u8);
        assert_eq!(around[8], alpha as u8);
        for pattern in bits - 4..=bits + 4 {
            assert_eq!(alpha_channel(pattern), expected_within_range(f64::from_bits(pattern)));
        }
    }
}

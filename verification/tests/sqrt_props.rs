//! The verified square root against the platform's square root.

use mvp_math::sqrt::f32_sqrt;

fn b(x: f32) -> u32 {
    x.to_bits()
}

#[test]
fn sqrt_matches_hardware_on_simple_values() {
    for x in [
        0.1f32, 0.25, 0.5, 1.0, 2.0, 3.0, 4.0, 6.25, 9.0, 100.0, 10000.0, 123.456, 0.0001,
        3.0e38, 1.0e-38, 5.0e-39, 1.2e-41, 1.5533431,
    ] {
        assert_eq!(
            f32_sqrt(b(x)),
            b(x.sqrt()),
            "square root of {x} disagrees with the platform"
        );
    }
}

#[test]
fn sqrt_matches_hardware_on_generated_patterns() {
    // A linear congruential walk over bit patterns; positive finite ones
    // are compared against the platform's square root.
    let mut state: u32 = 0x1234_5678;
    let mut checked = 0u32;
    while checked < 20000 {
        state = state.wrapping_mul(1664525).wrapping_add(1013904223);
        let pattern = state;
        let value = f32::from_bits(pattern);
        if value.is_sign_positive() && value.is_finite() && pattern != 0 {
            assert_eq!(
                f32_sqrt(pattern),
                b(value.sqrt()),
                "square root of pattern {pattern:#x} disagrees with the platform"
            );
            checked += 1;
        }
    }
}

#[test]
fn sqrt_of_subnormals_matches_hardware() {
    for pattern in [1u32, 2, 3, 0x7F_FFFF, 0x40_0000, 0x00_0001, 0x12_3456] {
        let value = f32::from_bits(pattern);
        assert!(value > 0.0 && !value.is_normal());
        assert_eq!(f32_sqrt(pattern), b(value.sqrt()));
    }
}

#[test]
fn sqrt_edge_cases() {
    // Zeros keep their sign.
    assert_eq!(f32_sqrt(b(0.0)), b(0.0));
    assert_eq!(f32_sqrt(b(-0.0)), b(-0.0));
    // Positive infinity comes back unchanged.
    assert_eq!(f32_sqrt(b(f32::INFINITY)), b(f32::INFINITY));
    // Negative values give the canonical negative quiet NaN.
    assert_eq!(f32_sqrt(b(-1.0)), 0xFFC0_0000);
    assert_eq!(f32_sqrt(b(f32::NEG_INFINITY)), 0xFFC0_0000);
    assert_eq!(f32_sqrt(b(-1.0e-40)), 0xFFC0_0000);
    // A signalling NaN comes back with its quiet bit set.
    assert_eq!(f32_sqrt(0x7F80_0001), 0x7FC0_0001);
    // A quiet NaN comes back unchanged.
    assert_eq!(f32_sqrt(0x7FC0_1234), 0x7FC0_1234);
}

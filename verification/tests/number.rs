use roster_ingest::number::{is_zero_number, round_to_i32};

fn rounded(value: f64) -> i32 {
    round_to_i32(value.to_bits())
}

#[test]
fn whole_numbers_round_to_themselves() {
    assert_eq!(rounded(0.0), 0);
    assert_eq!(rounded(1.0), 1);
    assert_eq!(rounded(-1.0), -1);
    assert_eq!(rounded(70.0), 70);
    assert_eq!(rounded(123456.0), 123456);
    assert_eq!(rounded(2147483647.0), i32::MAX);
    assert_eq!(rounded(-2147483648.0), i32::MIN);
}

#[test]
fn halves_round_away_from_zero() {
    assert_eq!(rounded(0.5), 1);
    assert_eq!(rounded(-0.5), -1);
    assert_eq!(rounded(1.5), 2);
    assert_eq!(rounded(2.5), 3);
    assert_eq!(rounded(-2.5), -3);
    assert_eq!(rounded(0.49999999999999994), 0);
    assert_eq!(rounded(-0.49999999999999994), 0);
    assert_eq!(rounded(130.4), 130);
    assert_eq!(rounded(130.6), 131);
}

#[test]
fn numbers_out_of_range_become_the_nearest_bound() {
    assert_eq!(rounded(2147483647.5), i32::MAX);
    assert_eq!(rounded(2147483648.0), i32::MAX);
    assert_eq!(rounded(-2147483648.5), i32::MIN);
    assert_eq!(rounded(1e10), i32::MAX);
    assert_eq!(rounded(-1e10), i32::MIN);
    assert_eq!(rounded(1e300), i32::MAX);
    assert_eq!(rounded(f64::MAX), i32::MAX);
    assert_eq!(rounded(f64::MIN), i32::MIN);
    assert_eq!(rounded(f64::INFINITY), i32::MAX);
    assert_eq!(rounded(f64::NEG_INFINITY), i32::MIN);
}

#[test]
fn nan_and_tiny_numbers_round_to_zero() {
    assert_eq!(rounded(f64::NAN), 0);
    assert_eq!(rounded(-f64::NAN), 0);
    assert_eq!(rounded(f64::MIN_POSITIVE), 0);
    assert_eq!(rounded(5e-324), 0);
    assert_eq!(rounded(-0.0), 0);
    assert_eq!(rounded(1e-10), 0);
}

#[test]
fn rounding_agrees_with_the_float_unit_on_many_bit_patterns() {
    let mut state: u64 = 0x9e3779b97f4a7c15;
    for _ in 0..200_000 {
        state = state.wrapping_mul(6364136223846793005).wrapping_add(1442695040888963407);
        let bits = state ^ (state >> 29);
        let value = f64::from_bits(bits);
        assert_eq!(round_to_i32(bits), value.round() as i32, "bits {bits:#x}");
        let near = f64::from_bits((bits & 0x800f_ffff_ffff_ffff) | ((1000 + (bits >> 58)) << 52));
        assert_eq!(round_to_i32(near.to_bits()), near.round() as i32, "value {near}");
    }
}

#[test]
fn rounding_agrees_with_the_float_unit_near_every_half() {
    for k in -5000..5000 {
        let half = k as f64 + 0.5;
        for value in [half, f64::from_bits(half.to_bits() + 1), f64::from_bits(half.to_bits() - 1)] {
            assert_eq!(rounded(value), value.round() as i32, "value {value}");
        }
    }
}

#[test]
fn zero_is_recognised_with_either_sign() {
    assert!(is_zero_number(0.0f64.to_bits()));
    assert!(is_zero_number((-0.0f64).to_bits()));
    assert!(!is_zero_number(0.3f64.to_bits()));
    assert!(!is_zero_number(5e-324f64.to_bits()));
    assert!(!is_zero_number(f64::NAN.to_bits()));
    assert!(!is_zero_number(70.0f64.to_bits()));
}

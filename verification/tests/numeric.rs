use platformer_core::num::{clamp_i64, div_trunc_i128, isqrt_u64, mul_div_nonneg};

#[test]
fn clamp_inside_range_is_identity() {
    assert_eq!(clamp_i64(12345, 1000000), 12345);
    assert_eq!(clamp_i64(-12345, 1000000), -12345);
    assert_eq!(clamp_i64(0, 0), 0);
}

#[test]
fn clamp_saturates_at_both_ends() {
    assert_eq!(clamp_i64(2000000, 1000000), 1000000);
    assert_eq!(clamp_i64(-2000000, 1000000), -1000000);
}

#[test]
fn truncating_division_rounds_toward_zero() {
    assert_eq!(div_trunc_i128(7, 2), 3);
    assert_eq!(div_trunc_i128(-7, 2), -3);
    assert_eq!(div_trunc_i128(-1, 2000000), 0);
    assert_eq!(div_trunc_i128(0, 5), 0);
}

#[test]
fn mul_div_computes_exact_quotient() {
    assert_eq!(mul_div_nonneg(100000, 500000, 100000000), 500);
    assert_eq!(mul_div_nonneg(3, 0, 7), 0);
}

#[test]
fn integer_square_roots() {
    assert_eq!(isqrt_u64(0), 0);
    assert_eq!(isqrt_u64(1), 1);
    assert_eq!(isqrt_u64(2), 1);
    assert_eq!(isqrt_u64(110000u64 * 110000u64), 110000);
    assert_eq!(isqrt_u64(110500000000), 332415);
    assert_eq!(isqrt_u64(8000000000000000000), 2828427124);
}

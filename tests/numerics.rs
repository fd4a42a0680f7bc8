use car_physics::fixed::{fx_add, fx_div, fx_mul, fx_sub, isqrt, saturate, SCALE};
use car_physics::integrator::{axpy, SimTime};

#[test]
fn products_round_toward_zero() {
    assert_eq!(fx_mul(1_500_000, 2_500_000), 3_750_000);
    assert_eq!(fx_mul(1, 1), 0);
    assert_eq!(fx_mul(-3, 500_000), -1);
    assert_eq!(fx_mul(3, 500_000), 1);
    assert_eq!(fx_mul(-SCALE, 7), -7);
}

#[test]
fn arithmetic_saturates() {
    assert_eq!(fx_mul(i64::MAX, i64::MAX), i64::MAX);
    assert_eq!(fx_mul(i64::MIN, i64::MAX), i64::MIN);
    assert_eq!(fx_add(i64::MAX, 1), i64::MAX);
    assert_eq!(fx_sub(i64::MIN, 1), i64::MIN);
    assert_eq!(fx_div(i64::MAX, 1), i64::MAX);
    assert_eq!(saturate(-(1i128 << 100)), i64::MIN);
}

#[test]
fn quotients_round_toward_zero() {
    assert_eq!(fx_div(SCALE, 3 * SCALE), 333_333);
    assert_eq!(fx_div(-SCALE, 3 * SCALE), -333_333);
    assert_eq!(fx_div(7 * SCALE, 2 * SCALE), 3_500_000);
}

#[test]
fn integer_square_roots() {
    assert_eq!(isqrt(0), 0);
    assert_eq!(isqrt(1), 1);
    assert_eq!(isqrt(99), 9);
    assert_eq!(isqrt(100), 10);
    assert_eq!(isqrt(1_000_000_000_000_000_000), 1_000_000_000);
    assert_eq!(isqrt(u128::MAX), u64::MAX);
}

#[test]
fn axpy_scales_and_adds() {
    let r = axpy(&vec![1, 2, 3], 2 * SCALE, &vec![10, -10, 0]);
    assert_eq!(r, vec![21, -18, 3]);
    assert!(axpy(&Vec::new(), SCALE, &Vec::new()).is_empty());
}

#[test]
fn sim_time_completes_at_end() {
    let mut t = SimTime::new(2_000, 0, Some(4_000));
    assert!(!t.is_complete());
    t.advance();
    assert_eq!(t.time, 2_000);
    assert!(!t.is_complete());
    t.advance();
    assert!(t.is_complete());
    let open = SimTime::new(2_000, i64::MAX - 1, None);
    assert!(!open.is_complete());
    let mut late = open;
    late.advance();
    assert_eq!(late.time, i64::MAX);
}

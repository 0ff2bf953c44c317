use truesight_protocol::price::{decide_outcome, fixed_cmp, PriceOrder};
use truesight_protocol::record::Direction;

#[test]
fn equal_mantissa_and_exponent_compare_same() {
    assert_eq!(fixed_cmp(100, 0, 100, 0), PriceOrder::Same);
    assert_eq!(fixed_cmp(-7, -3, -7, -3), PriceOrder::Same);
    assert_eq!(fixed_cmp(0, 5, 0, -5), PriceOrder::Same);
}

#[test]
fn same_exponent_compares_by_mantissa() {
    assert_eq!(fixed_cmp(100, 0, 150, 0), PriceOrder::Below);
    assert_eq!(fixed_cmp(150, 0, 100, 0), PriceOrder::Above);
    assert_eq!(fixed_cmp(-5, 0, 3, 0), PriceOrder::Below);
    assert_eq!(fixed_cmp(-500, 2, -400, 2), PriceOrder::Below);
}

#[test]
fn differing_exponents_are_aligned_exactly() {
    // 15 * 10^1 == 150 > 100 * 10^0.
    assert_eq!(fixed_cmp(15, 1, 100, 0), PriceOrder::Above);
    // 1 * 10^2 == 100 * 10^0.
    assert_eq!(fixed_cmp(1, 2, 100, 0), PriceOrder::Same);
    // 5 * 10^-1 == 0.5 < 100 * 10^-2 == 1.0.
    assert_eq!(fixed_cmp(5, -1, 100, -2), PriceOrder::Below);
    // 42000 * 10^-8 == 420 * 10^-6.
    assert_eq!(fixed_cmp(42000, -8, 420, -6), PriceOrder::Same);
}

#[test]
fn negative_values_align_exactly() {
    // -5 * 10^2 == -500 < -400.
    assert_eq!(fixed_cmp(-5, 2, -400, 0), PriceOrder::Below);
    // -5 * 10^2 == -500 > -6000.
    assert_eq!(fixed_cmp(-5, 2, -6000, 0), PriceOrder::Above);
    assert_eq!(fixed_cmp(-5, 2, -500, 0), PriceOrder::Same);
}

#[test]
fn zero_compares_by_the_other_side_sign() {
    assert_eq!(fixed_cmp(0, 30, 1, -30), PriceOrder::Below);
    assert_eq!(fixed_cmp(0, 30, -1, -30), PriceOrder::Above);
    assert_eq!(fixed_cmp(3, -9, 0, 9), PriceOrder::Above);
}

#[test]
fn huge_exponent_gaps_do_not_overflow() {
    // 1 * 10^30 dwarfs any 64-bit mantissa at exponent 0.
    assert_eq!(fixed_cmp(1, 30, i64::MAX, 0), PriceOrder::Above);
    assert_eq!(fixed_cmp(-1, 30, i64::MIN, 0), PriceOrder::Below);
    assert_eq!(fixed_cmp(i64::MAX, 0, 1, 30), PriceOrder::Below);
    assert_eq!(fixed_cmp(1, i32::MAX, 1, i32::MIN), PriceOrder::Above);
    assert_eq!(fixed_cmp(0, i32::MAX, 0, i32::MIN), PriceOrder::Same);
}

#[test]
fn eighteen_digit_shifts_stay_exact() {
    // 10^18 + 1 at exponent 0 against 1 at exponent 18: off by one.
    assert_eq!(fixed_cmp(1_000_000_000_000_000_001, 0, 1, 18), PriceOrder::Above);
    assert_eq!(fixed_cmp(1_000_000_000_000_000_000, 0, 1, 18), PriceOrder::Same);
    assert_eq!(fixed_cmp(999_999_999_999_999_999, 0, 1, 18), PriceOrder::Below);
}

#[test]
fn extreme_mantissas_compare_exactly() {
    assert_eq!(fixed_cmp(i64::MIN, 0, i64::MAX, 0), PriceOrder::Below);
    assert_eq!(fixed_cmp(i64::MIN, 0, i64::MIN, 0), PriceOrder::Same);
    assert_eq!(fixed_cmp(i64::MIN, 1, i64::MIN, 0), PriceOrder::Below);
    assert_eq!(fixed_cmp(i64::MAX, 1, i64::MAX, 0), PriceOrder::Above);
}

#[test]
fn outcome_follows_direction_and_comparison() {
    assert!(decide_outcome(Direction::Up, 100, 0, 150, 0));
    assert!(!decide_outcome(Direction::Up, 150, 0, 100, 0));
    assert!(decide_outcome(Direction::Down, 150, 0, 100, 0));
    assert!(!decide_outcome(Direction::Down, 100, 0, 150, 0));
    // Ties are never correct, whatever the direction.
    assert!(!decide_outcome(Direction::Up, 100, 0, 100, 0));
    assert!(!decide_outcome(Direction::Down, 100, 0, 100, 0));
    assert!(!decide_outcome(Direction::Up, 100, 0, 1, 2));
    assert!(!decide_outcome(Direction::Down, 100, 0, 1, 2));
}

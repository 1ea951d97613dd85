use clmm_trading_new::error::ErrorCode;
use clmm_trading_new::price_math::{
    compute_new_sqrt_price, compute_swap_output, sqrt_price_to_price, FEE_RATE_DENOMINATOR, POOL_FEE_RATE,
    Q64,
};

#[test]
fn q64_is_two_to_the_64th() {
    assert_eq!(Q64, 1u128 << 64);
    assert_eq!(POOL_FEE_RATE, 3_000);
    assert_eq!(FEE_RATE_DENOMINATOR, 1_000_000);
}

#[test]
fn price_of_one_is_one() {
    assert_eq!(sqrt_price_to_price(Q64), Ok(Q64));
}

#[test]
fn price_of_zero_is_zero() {
    assert_eq!(sqrt_price_to_price(0), Ok(0));
}

#[test]
fn price_of_one_and_a_half_is_two_and_a_quarter() {
    assert_eq!(sqrt_price_to_price(27670116110564327424), Ok(41505174165846491136));
    assert_eq!(sqrt_price_to_price(3 * Q64 / 2), Ok(9 * Q64 / 4));
}

#[test]
fn price_of_a_half_is_a_quarter() {
    assert_eq!(sqrt_price_to_price(Q64 / 2), Ok(Q64 / 4));
}

#[test]
fn price_is_rounded_down() {
    assert_eq!(sqrt_price_to_price(3), Ok(0));
    assert_eq!(sqrt_price_to_price((1u128 << 32) - 1), Ok(0));
    assert_eq!(sqrt_price_to_price(1u128 << 32), Ok(1));
    assert_eq!(sqrt_price_to_price(Q64 + 1), Ok(Q64 + 2));
}

#[test]
fn price_with_both_halves_set() {
    assert_eq!(
        sqrt_price_to_price(39614081269477847698006543058),
        Ok(85070591783258903001825811368369004756)
    );
}

#[test]
fn price_of_largest_square_root_that_fits() {
    let largest: u128 = (1u128 << 96) - 1;
    assert_eq!(sqrt_price_to_price(largest), Ok(340282366920938463463374607423178276864));
    assert_eq!(sqrt_price_to_price(largest), Ok(u128::MAX - (1u128 << 33) + 1));
}

#[test]
fn price_overflows_from_two_to_the_96th() {
    assert_eq!(sqrt_price_to_price(1u128 << 96), Err(ErrorCode::Overflow));
    assert_eq!(sqrt_price_to_price((1u128 << 96) + 1), Err(ErrorCode::Overflow));
    assert_eq!(
        sqrt_price_to_price(1512366075204170947332355369683137040),
        Err(ErrorCode::Overflow)
    );
    assert_eq!(sqrt_price_to_price(u128::MAX), Err(ErrorCode::Overflow));
}

#[test]
fn output_is_the_share_that_the_fee_leaves() {
    assert_eq!(compute_swap_output(1_000, Q64, 0, true, 3_000), Ok(997));
    assert_eq!(compute_swap_output(1_000_000, Q64, 0, true, 3_000), Ok(997_000));
    assert_eq!(compute_swap_output(12_345, Q64, 0, true, 500_000), Ok(6_172));
    assert_eq!(compute_swap_output(1_000_000_000_000, Q64, 0, true, 1), Ok(999_999_000_000));
    assert_eq!(compute_swap_output(1_000_000, Q64, 0, true, 999_999), Ok(1));
}

#[test]
fn output_is_rounded_down() {
    assert_eq!(compute_swap_output(333, Q64, 1, true, 3_000), Ok(332));
    assert_eq!(compute_swap_output(1_000_001, Q64, 0, true, 3_000), Ok(997_000));
    assert_eq!(compute_swap_output(123_456, Q64, 0, true, 3_000), Ok(123_085));
    assert_eq!(compute_swap_output(50_000, Q64, 0, true, 3_000), Ok(49_850));
    assert_eq!(compute_swap_output(3, Q64, 0, true, 3_000), Ok(2));
    assert_eq!(compute_swap_output(2, Q64, 0, true, 3_000), Ok(1));
}

#[test]
fn output_is_input_times_997_over_1000_at_the_pool_rate() {
    let amounts: [u64; 9] = [2, 10, 999, 1_000, 1_001, 65_535, 65_536, 4_294_967_294, 4_294_967_295];
    for amount_in in amounts {
        assert_eq!(
            compute_swap_output(amount_in, Q64, 0, true, POOL_FEE_RATE),
            Ok(amount_in * 997 / 1000)
        );
    }
}

#[test]
fn output_without_fee_is_the_input() {
    assert_eq!(compute_swap_output(123_456, Q64, 0, true, 0), Ok(123_456));
    assert_eq!(compute_swap_output(u64::MAX, Q64, 0, true, 0), Ok(u64::MAX));
}

#[test]
fn output_of_the_largest_input() {
    assert_eq!(compute_swap_output(u64::MAX, Q64, 0, true, 3_000), Ok(18391403841488422960));
}

#[test]
fn output_is_zero_only_for_zero_input() {
    assert_eq!(compute_swap_output(0, Q64, 0, true, 3_000), Ok(0));
    assert_eq!(compute_swap_output(0, Q64, 0, true, 999_999), Ok(0));
    assert_eq!(compute_swap_output(0, Q64, 0, true, 0), Ok(0));
    assert_eq!(compute_swap_output(1, Q64, 0, true, 0), Ok(1));
}

#[test]
fn input_that_would_be_paid_nothing_is_refused() {
    assert_eq!(compute_swap_output(1, Q64, 0, true, 3_000), Err(ErrorCode::InsufficientOutputAmount));
    assert_eq!(compute_swap_output(1, Q64, 0, true, 1), Err(ErrorCode::InsufficientOutputAmount));
    assert_eq!(compute_swap_output(1, Q64, 0, true, 500_000), Err(ErrorCode::InsufficientOutputAmount));
    assert_eq!(compute_swap_output(2, Q64, 0, true, 500_000), Ok(1));
    assert_eq!(compute_swap_output(7, Q64, 0, true, 999_999), Err(ErrorCode::InsufficientOutputAmount));
    assert_eq!(compute_swap_output(999_999, Q64, 0, true, 999_999), Err(ErrorCode::InsufficientOutputAmount));
}

#[test]
fn limit_is_looked_at_before_the_output() {
    assert_eq!(compute_swap_output(1, Q64, Q64 + 1, true, 3_000), Err(ErrorCode::PriceLimitExceeded));
    assert_eq!(compute_swap_output(1, Q64, Q64 - 1, false, 3_000), Err(ErrorCode::PriceLimitExceeded));
}

#[test]
fn output_never_falls_as_input_grows() {
    let mut previous: u64 = compute_swap_output(0, Q64, 0, true, 3_000).unwrap();
    let mut amount_in: u64 = 2;
    while amount_in <= 5_000 {
        let amount_out = compute_swap_output(amount_in, Q64, 0, true, 3_000).unwrap();
        assert!(amount_out >= previous);
        previous = amount_out;
        amount_in += 1;
    }
}

#[test]
fn output_grows_over_two_steps_of_input() {
    let mut amount_in: u64 = 2;
    while amount_in <= 5_000 {
        let lower = compute_swap_output(amount_in, Q64, 0, true, 3_000).unwrap();
        let upper = compute_swap_output(amount_in + 2, Q64, 0, true, 3_000).unwrap();
        assert!(lower < upper);
        amount_in += 1;
    }
}

#[test]
fn output_can_stay_over_one_step_of_input() {
    assert_eq!(compute_swap_output(332, Q64, 0, true, 3_000), Ok(331));
    assert_eq!(compute_swap_output(333, Q64, 0, true, 3_000), Ok(332));
    assert_eq!(compute_swap_output(334, Q64, 0, true, 3_000), Ok(332));
    assert_eq!(compute_swap_output(335, Q64, 0, true, 3_000), Ok(333));
}

#[test]
fn output_does_not_depend_on_direction() {
    assert_eq!(compute_swap_output(1_000_000, Q64, u128::MAX, false, 3_000), Ok(997_000));
    assert_eq!(compute_swap_output(1_000_000, 5 * Q64, 5 * Q64, false, 3_000), Ok(997_000));
    assert_eq!(compute_swap_output(1_000_000, 5 * Q64, 5 * Q64, true, 3_000), Ok(997_000));
}

#[test]
fn fee_rate_of_the_whole_or_more_is_refused() {
    assert_eq!(compute_swap_output(1_000, Q64, 0, true, 1_000_000), Err(ErrorCode::InvalidParameters));
    assert_eq!(compute_swap_output(1_000, Q64, 0, true, 1_000_001), Err(ErrorCode::InvalidParameters));
    assert_eq!(compute_swap_output(0, Q64, 0, true, u32::MAX), Err(ErrorCode::InvalidParameters));
    assert_eq!(compute_swap_output(1_000_000, Q64, 0, true, 999_999), Ok(1));
}

#[test]
fn fee_rate_is_looked_at_before_the_limit() {
    assert_eq!(
        compute_swap_output(1_000, Q64, Q64 + 1, true, 1_000_000),
        Err(ErrorCode::InvalidParameters)
    );
}

#[test]
fn limit_above_the_price_stops_a_trade_of_asset_0() {
    assert_eq!(compute_swap_output(1_000, Q64, Q64 + 1, true, 3_000), Err(ErrorCode::PriceLimitExceeded));
    assert_eq!(compute_swap_output(1_000, Q64, u128::MAX, true, 3_000), Err(ErrorCode::PriceLimitExceeded));
    assert_eq!(compute_swap_output(1_000, Q64, Q64, true, 3_000), Ok(997));
    assert_eq!(compute_swap_output(1_000, Q64, Q64 - 1, true, 3_000), Ok(997));
}

#[test]
fn limit_below_the_price_stops_a_trade_of_asset_1() {
    assert_eq!(compute_swap_output(1_000, Q64, Q64 - 1, false, 3_000), Err(ErrorCode::PriceLimitExceeded));
    assert_eq!(compute_swap_output(1_000, Q64, 0, false, 3_000), Err(ErrorCode::PriceLimitExceeded));
    assert_eq!(compute_swap_output(1_000, Q64, Q64, false, 3_000), Ok(997));
    assert_eq!(compute_swap_output(1_000, Q64, Q64 + 1, false, 3_000), Ok(997));
}

#[test]
fn new_price_is_the_current_price() {
    assert_eq!(compute_new_sqrt_price(Q64, 1_000_000, 997_000, true), Ok(Q64));
    assert_eq!(compute_new_sqrt_price(Q64, 1_000_000, 997_000, false), Ok(Q64));
    assert_eq!(compute_new_sqrt_price(12_345, 1, 1, true), Ok(12_345));
    assert_eq!(compute_new_sqrt_price(u128::MAX, u64::MAX, 0, false), Ok(u128::MAX));
}

#[test]
fn new_price_does_not_move_against_the_trade() {
    let current: u128 = 7 * Q64;
    assert!(compute_new_sqrt_price(current, 500, 499, true).unwrap() <= current);
    assert!(compute_new_sqrt_price(current, 500, 499, false).unwrap() >= current);
}

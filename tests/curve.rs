use exchange::curve::constant_product::{
    calculate_fee, calculate_pool_tokens_propotional_to_single_token_deposit,
    calculate_pool_tokens_propotional_to_single_token_redeemed,
    calculate_pool_tokens_propotional_to_trade_tokens, calculate_swap_amounts,
    calculate_trade_tokens_propotional_to_pool_tokens, pool_tokens_for_deposit_root,
    pool_tokens_for_redeem_root,
};
use exchange::errors::ExchangeError;
use exchange::fee::Fee;
use exchange::math::{Precise, PRECISION_ONE};

fn fee(trade_num: u64, trade_den: u64, owner_num: u64, owner_den: u64) -> Fee {
    Fee {
        trade_fee_numerator: trade_num,
        trade_fee_denominator: trade_den,
        owner_trade_fee_numerator: owner_num,
        owner_trade_fee_denominator: owner_den,
    }
}

fn precise(raw: u128) -> Precise {
    Precise { words: [raw as u64, (raw >> 64) as u64, 0, 0] }
}

#[test]
fn fee_is_floor_of_rate() {
    assert_eq!(calculate_fee(10_000, 25, 10_000), Some(25));
    assert_eq!(calculate_fee(10_001, 3, 1000), Some(30));
    assert_eq!(calculate_fee(1000, 1, 1000), Some(1));
}

#[test]
fn fee_rounds_up_to_one_unit() {
    assert_eq!(calculate_fee(1000, 1, 2000), Some(1));
    assert_eq!(calculate_fee(0, 1, 1000), Some(1));
}

#[test]
fn fee_is_zero_without_rate() {
    assert_eq!(calculate_fee(1000, 0, 1000), Some(0));
    assert_eq!(calculate_fee(1000, 0, 0), Some(0));
}

#[test]
fn fee_fails_on_zero_denominator_or_overflow() {
    assert_eq!(calculate_fee(1000, 3, 0), None);
    assert_eq!(calculate_fee(u128::MAX, 2, 1), None);
}

#[test]
fn swap_example_with_both_fees() {
    let r = calculate_swap_amounts(1000, 1_000_000, 2_000_000, &fee(1, 1000, 1, 2000)).unwrap();
    assert_eq!(r, (1_001_000, 1_998_006, 1000, 1994, 1, 1));
    let (new_source, new_destination, swapped_source, swapped_destination, owner, trade) = r;
    assert!(swapped_destination > 0);
    assert_eq!(new_source, 1_000_000 + swapped_source);
    assert_eq!(swapped_source, 998 + owner + trade);
    assert_eq!(new_destination, 2_000_000 - swapped_destination);
    assert!(new_source * new_destination >= 1_000_000 * 2_000_000);
}

#[test]
fn swap_with_exact_division() {
    let r = calculate_swap_amounts(1000, 1000, 1000, &fee(0, 1, 0, 1));
    assert_eq!(r, Ok((2000, 500, 1000, 500, 0, 0)));
}

#[test]
fn swap_with_rounded_division_shrinks_source() {
    // 1_000_000 / 1001 rounds up to 1000, and 1000 is the least source
    // reserve that still gives that quotient: nothing is taken or paid.
    let r = calculate_swap_amounts(1, 1000, 1000, &fee(0, 1, 0, 1));
    assert_eq!(r, Ok((1000, 1000, 0, 0, 0, 0)));
}

#[test]
fn swap_keeps_product() {
    let r = calculate_swap_amounts(1_000_000, 1_000_000_000, 500_000_000, &fee(25, 10_000, 5, 10_000))
        .unwrap();
    assert_eq!(r, (1_001_000_000, 499_501_997, 1_000_000, 498_003, 500, 2500));
    assert!(r.0 * r.1 >= 1_000_000_000u128 * 500_000_000);
}

#[test]
fn swap_of_nothing_without_fees() {
    let r = calculate_swap_amounts(0, 5000, 7000, &fee(0, 0, 0, 0));
    assert_eq!(r, Ok((5000, 7000, 0, 0, 0, 0)));
}

#[test]
fn swap_of_nothing_with_fees_fails() {
    let r = calculate_swap_amounts(0, 5000, 7000, &fee(1, 100, 1, 100));
    assert_eq!(r, Err(ExchangeError::NumeralOverflow));
}

#[test]
fn swap_fails_when_fees_exceed_amount() {
    let r = calculate_swap_amounts(1, 5000, 7000, &fee(1, 100, 0, 100));
    assert_eq!(r, Ok((5001, 7000, 1, 0, 0, 1)));
    let r = calculate_swap_amounts(1, 5000, 7000, &fee(1, 100, 1, 100));
    assert_eq!(r, Err(ExchangeError::NumeralOverflow));
}

#[test]
fn swap_fails_on_product_overflow() {
    let r = calculate_swap_amounts(10, u128::MAX / 2, 3, &fee(0, 1, 0, 1));
    assert_eq!(r, Err(ExchangeError::NumeralOverflow));
}

#[test]
fn swap_fails_on_empty_pool() {
    let r = calculate_swap_amounts(10, 0, 0, &fee(0, 1, 0, 1));
    assert_eq!(r, Err(ExchangeError::NumeralOverflow));
}

#[test]
fn trade_tokens_for_pool_tokens_example() {
    let r = calculate_trade_tokens_propotional_to_pool_tokens(500, 1000, 10_000, 20_000);
    assert_eq!(r, Ok((5000, 10_000)));
}

#[test]
fn trade_tokens_round_down() {
    let r = calculate_trade_tokens_propotional_to_pool_tokens(1, 3, 10, 20);
    assert_eq!(r, Ok((3, 6)));
}

#[test]
fn trade_tokens_of_nothing() {
    assert_eq!(calculate_trade_tokens_propotional_to_pool_tokens(0, 1000, 10, 20), Ok((0, 0)));
    assert_eq!(calculate_pool_tokens_propotional_to_trade_tokens(0, 1000, 10), Ok(0));
}

#[test]
fn trade_tokens_fail_on_zero_supply() {
    let r = calculate_trade_tokens_propotional_to_pool_tokens(5, 0, 10, 20);
    assert_eq!(r, Err(ExchangeError::InvalidRatio));
    assert_eq!(calculate_pool_tokens_propotional_to_trade_tokens(5, 100, 0), Err(ExchangeError::InvalidRatio));
}

#[test]
fn trade_tokens_fail_on_overflow() {
    let r = calculate_trade_tokens_propotional_to_pool_tokens(u128::MAX, 10, 1, 2);
    assert_eq!(r, Err(ExchangeError::NumeralOverflow));
}

#[test]
fn pool_tokens_round_trip_never_gains() {
    let (a, b) = calculate_trade_tokens_propotional_to_pool_tokens(7, 30, 100, 47).unwrap();
    assert_eq!((a, b), (23, 10));
    let back_a = calculate_pool_tokens_propotional_to_trade_tokens(a, 30, 100).unwrap();
    let back_b = calculate_pool_tokens_propotional_to_trade_tokens(b, 30, 47).unwrap();
    assert_eq!((back_a, back_b), (6, 6));
    assert!(back_a <= 7 && back_b <= 7);
}

#[test]
fn single_deposit_example() {
    let r = calculate_pool_tokens_propotional_to_single_token_deposit(1000, 1_000_000, 1_000_000_000);
    assert_eq!(r, Ok(499_875));
}

#[test]
fn single_deposit_quadrupling_reserve_doubles_supply() {
    let r = calculate_pool_tokens_propotional_to_single_token_deposit(3_000_000, 1_000_000, 1_000_000_000);
    assert_eq!(r, Ok(1_000_000_000));
}

#[test]
fn single_deposit_of_nothing() {
    let r = calculate_pool_tokens_propotional_to_single_token_deposit(0, 1_000_000, 1_000_000_000);
    assert_eq!(r, Ok(0));
}

#[test]
fn single_deposit_into_empty_reserve_fails() {
    let r = calculate_pool_tokens_propotional_to_single_token_deposit(10, 0, 1_000_000_000);
    assert_eq!(r, Err(ExchangeError::InvalidRatio));
}

#[test]
fn single_redeem_example() {
    let r = calculate_pool_tokens_propotional_to_single_token_redeemed(1000, 1_000_000, 1_000_000_000);
    assert_eq!(r, Ok(500_125));
    let r = calculate_pool_tokens_propotional_to_single_token_redeemed(750_000, 1_000_000, 1_000_000_000);
    assert_eq!(r, Ok(500_000_000));
}

#[test]
fn single_redeem_of_nothing() {
    let r = calculate_pool_tokens_propotional_to_single_token_redeemed(0, 1_000_000, 1_000_000_000);
    assert_eq!(r, Ok(0));
}

#[test]
fn single_redeem_of_whole_reserve_fails() {
    let r = calculate_pool_tokens_propotional_to_single_token_redeemed(1_000_000, 1_000_000, 1_000_000_000);
    assert_eq!(r, Err(ExchangeError::InvalidRatio));
    let r = calculate_pool_tokens_propotional_to_single_token_redeemed(1_000_001, 1_000_000, 1_000_000_000);
    assert_eq!(r, Err(ExchangeError::InvalidRatio));
    let r = calculate_pool_tokens_propotional_to_single_token_redeemed(0, 0, 1_000_000_000);
    assert_eq!(r, Err(ExchangeError::InvalidRatio));
}

#[test]
fn single_deposit_then_redeem_favours_pool() {
    for &(amount, reserve, supply) in &[
        (1000u128, 1_000_000u128, 1_000_000_000u128),
        (1_000_000, 1_000_000, 1_000_000_000),
        (12_345, 678_910, 1_000_000_000),
        (1, 1_000_000, 1_000_000_000),
        (5, 7, 1000),
    ] {
        let minted =
            calculate_pool_tokens_propotional_to_single_token_deposit(amount, reserve, supply).unwrap();
        let burnt = calculate_pool_tokens_propotional_to_single_token_redeemed(
            amount,
            reserve + amount,
            supply + minted,
        )
        .unwrap();
        assert!(burnt >= minted);
    }
}

#[test]
fn deposit_root_scales_supply() {
    assert_eq!(pool_tokens_for_deposit_root(&precise(2 * PRECISION_ONE), 1000), Ok(1000));
    assert_eq!(pool_tokens_for_deposit_root(&precise(PRECISION_ONE), 5), Ok(0));
    assert_eq!(
        pool_tokens_for_deposit_root(&precise(PRECISION_ONE / 2), 5),
        Err(ExchangeError::NumeralOverflow)
    );
}

#[test]
fn redeem_root_scales_supply() {
    assert_eq!(pool_tokens_for_redeem_root(&precise(PRECISION_ONE / 2), 1000), Ok(500));
    assert_eq!(pool_tokens_for_redeem_root(&precise(0), 77), Ok(77));
    assert_eq!(
        pool_tokens_for_redeem_root(&precise(2 * PRECISION_ONE), 5),
        Err(ExchangeError::NumeralOverflow)
    );
}

#[test]
fn deposit_root_result_too_large_fails() {
    let root = Precise { words: [0, 0, 1, 0] };
    assert_eq!(pool_tokens_for_deposit_root(&root, u128::MAX), Err(ExchangeError::NumeralOverflow));
}

#[test]
fn deposit_root_truncates_share() {
    // A root of 1.6 on one LP token is a share of 0.6: nothing is minted.
    assert_eq!(pool_tokens_for_deposit_root(&precise(16 * PRECISION_ONE / 10), 1), Ok(0));
    assert_eq!(pool_tokens_for_deposit_root(&precise(16 * PRECISION_ONE / 10), 10), Ok(6));
}

#[test]
fn redeem_root_truncates_share() {
    // A root of 0.4 on one LP token is a share of 0.6: nothing is burnt.
    assert_eq!(pool_tokens_for_redeem_root(&precise(4 * PRECISION_ONE / 10), 1), Ok(0));
    assert_eq!(pool_tokens_for_redeem_root(&precise(4 * PRECISION_ONE / 10), 10), Ok(6));
}

#[test]
fn single_deposit_fraction_of_token_mints_nothing() {
    let r = calculate_pool_tokens_propotional_to_single_token_deposit(156, 100, 1);
    assert_eq!(r, Ok(0));
}

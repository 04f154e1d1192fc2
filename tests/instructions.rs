use exchange::errors::ExchangeError;
use exchange::fee::Fee;
use exchange::instructions::{
    plan_deposit_all_tokens, plan_deposit_single_token, plan_swap, plan_withdraw_single_token,
    SwapPlan, TradeDirection,
};

fn schedule() -> Fee {
    Fee {
        trade_fee_numerator: 25,
        trade_fee_denominator: 10_000,
        owner_trade_fee_numerator: 5,
        owner_trade_fee_denominator: 10_000,
    }
}

#[test]
fn direction_orders_pair() {
    assert_eq!(TradeDirection::TokenAtoB.orient(1, 2), (1, 2));
    assert_eq!(TradeDirection::TokenBtoA.orient(1, 2), (2, 1));
}

#[test]
fn swap_plan_moves_amounts_and_mints_owner_fee() {
    let r = plan_swap(1_000_000, 2_000_000, 1_000_000_000, 500_000_000, 1_000_000_000, &schedule());
    assert_eq!(
        r,
        Ok(SwapPlan { source_amount: 1_000_000, destination_amount: 498_003, fee_pool_tokens: 249 })
    );
}

#[test]
fn swap_plan_needs_funds() {
    let r = plan_swap(1_000_000, 999_999, 1_000_000_000, 500_000_000, 1_000_000_000, &schedule());
    assert_eq!(r, Err(ExchangeError::NotEnoughFunds));
}

#[test]
fn swap_plan_reports_overflow() {
    let r = plan_swap(0, 10, 1_000_000_000, 500_000_000, 1_000_000_000, &schedule());
    assert_eq!(r, Err(ExchangeError::NumeralOverflow));
}

#[test]
fn deposit_all_plan() {
    assert_eq!(plan_deposit_all_tokens(500, 5000, 10_000, 1000, 10_000, 20_000), Ok((5000, 10_000)));
    assert_eq!(
        plan_deposit_all_tokens(500, 4999, 10_000, 1000, 10_000, 20_000),
        Err(ExchangeError::SlippageExceeded)
    );
    assert_eq!(plan_deposit_all_tokens(500, 5000, 10_000, 0, 10_000, 20_000), Err(ExchangeError::InvalidRatio));
}

#[test]
fn deposit_single_plan() {
    assert_eq!(plan_deposit_single_token(1000, 1000, 1_000_000, 1_000_000_000), Ok(499_875));
    assert_eq!(plan_deposit_single_token(1000, 999, 1_000_000, 1_000_000_000), Err(ExchangeError::NotEnoughFunds));
}

#[test]
fn deposit_single_plan_too_many_pool_tokens() {
    let r = plan_deposit_single_token(u64::MAX, u64::MAX, 1, 10_000_000_000);
    assert_eq!(r, Err(ExchangeError::ConversionFailure));
}

#[test]
fn withdraw_single_plan() {
    assert_eq!(plan_withdraw_single_token(1000, 1000, 500_125, 1_000_000, 1_000_000_000), Ok(500_125));
    assert_eq!(
        plan_withdraw_single_token(1000, 1000, 500_124, 1_000_000, 1_000_000_000),
        Err(ExchangeError::NotEnoughFunds)
    );
    assert_eq!(
        plan_withdraw_single_token(1_000_000, 1_000_000, 1, 1_000_000, 1_000_000_000),
        Err(ExchangeError::InvalidRatio)
    );
}

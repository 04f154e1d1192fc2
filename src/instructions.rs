//! What each pool instruction transfers, mints and burns, decided from the
//! balances that the instruction reads. Moving the tokens is left to the
//! caller.
use crate::curve::constant_product::{
    calculate_pool_tokens_propotional_to_single_token_deposit,
    calculate_pool_tokens_propotional_to_single_token_redeemed, calculate_swap_amounts,
    calculate_trade_tokens_propotional_to_pool_tokens, share_spec, single_deposit_spec,
    single_redeem_spec, swap_spec,
};
use crate::errors::ExchangeError;
use crate::fee::Fee;
use vstd::prelude::*;

verus! {

/// LP tokens minted to the creator of a new pool.
pub const INITIAL_POOL_TOKEN_SUPPLY: u64 = 1_000_000_000;

/// Which of the pool's tokens a trade brings in.
#[derive(Debug, Clone, Copy, PartialEq, Eq, Structural)]
pub enum TradeDirection {
    TokenAtoB,
    TokenBtoA,
}

impl TradeDirection {
    /// Puts a pair given as (token A, token B) in trade order: (source, destination).
    pub fn orient<T>(self, token_a: T, token_b: T) -> (r: (T, T))
        ensures
            r == (match self {
                TradeDirection::TokenAtoB => (token_a, token_b),
                TradeDirection::TokenBtoA => (token_b, token_a),
            }),
    {
        match self {
            TradeDirection::TokenAtoB => (token_a, token_b),
            TradeDirection::TokenBtoA => (token_b, token_a),
        }
    }
}

/// The movements of a swap.
#[derive(Debug, Clone, Copy, PartialEq, Eq, Structural)]
pub struct SwapPlan {
    /// Taken from the user into the pool's source account, fees included.
    pub source_amount: u64,
    /// Paid from the pool's destination account to the user.
    pub destination_amount: u64,
    /// LP tokens minted to the pool's fee account for the owner fee.
    pub fee_pool_tokens: u64,
}

/// A swap of `source_amount`: refused when the user holds less; else the
/// curve's swap, and the owner fee turned into LP tokens as a single-sided
/// withdrawal of that fee from the new source reserve.
pub open spec fn swap_plan_spec(
    source_amount: u64,
    user_source_balance: u64,
    pool_source_balance: u64,
    pool_destination_balance: u64,
    pool_mint_supply: u64,
    fee: Fee,
) -> Result<SwapPlan, ExchangeError> {
    if user_source_balance < source_amount {
        Err(ExchangeError::NotEnoughFunds)
    } else {
        match swap_spec(
            source_amount as int,
            pool_source_balance as int,
            pool_destination_balance as int,
            fee,
        ) {
            None => Err(ExchangeError::NumeralOverflow),
            Some((new_source, _, swapped_source, swapped_destination, owner_fee, _)) => {
                match single_redeem_spec(owner_fee, new_source, pool_mint_supply as int) {
                    Err(e) => Err(e),
                    Ok(tokens) => if tokens > u64::MAX {
                        Err(ExchangeError::ConversionFailure)
                    } else {
                        Ok(
                            SwapPlan {
                                source_amount: swapped_source as u64,
                                destination_amount: swapped_destination as u64,
                                fee_pool_tokens: tokens as u64,
                            },
                        )
                    },
                }
            },
        }
    }
}

/// Plans a swap of `source_amount` for a user holding `user_source_balance`,
/// against pool balances already put in trade order.
pub fn plan_swap(
    source_amount: u64,
    user_source_balance: u64,
    pool_source_balance: u64,
    pool_destination_balance: u64,
    pool_mint_supply: u64,
    fee: &Fee,
) -> (r: Result<SwapPlan, ExchangeError>)
    ensures
        r == swap_plan_spec(
            source_amount,
            user_source_balance,
            pool_source_balance,
            pool_destination_balance,
            pool_mint_supply,
            *fee,
        ),
{
    if user_source_balance < source_amount {
        return Err(ExchangeError::NotEnoughFunds);
    }
    let (new_pool_source, _, swapped_source, swapped_destination, owner_fee, _) =
        calculate_swap_amounts(
        source_amount as u128,
        pool_source_balance as u128,
        pool_destination_balance as u128,
        fee,
    )?;
    let tokens = calculate_pool_tokens_propotional_to_single_token_redeemed(
        owner_fee,
        new_pool_source,
        pool_mint_supply as u128,
    )?;
    if tokens > u64::MAX as u128 {
        return Err(ExchangeError::ConversionFailure);
    }
    Ok(
        SwapPlan {
            source_amount: swapped_source as u64,
            destination_amount: swapped_destination as u64,
            fee_pool_tokens: tokens as u64,
        },
    )
}

/// A balanced deposit that mints `pool_tokens` LP tokens: the share of each
/// reserve that they stand for, refused when either exceeds the user's limit.
pub open spec fn deposit_all_spec(
    pool_tokens: u64,
    max_token_a: u64,
    max_token_b: u64,
    pool_mint_supply: u64,
    pool_token_a: u64,
    pool_token_b: u64,
) -> Result<(u64, u64), ExchangeError> {
    let a = share_spec(pool_tokens as int, pool_mint_supply as int, pool_token_a as int);
    let b = share_spec(pool_tokens as int, pool_mint_supply as int, pool_token_b as int);
    match (a, b) {
        (Err(e), _) => Err(e),
        (Ok(_), Err(e)) => Err(e),
        (Ok(a), Ok(b)) => if a > max_token_a || b > max_token_b {
            Err(ExchangeError::SlippageExceeded)
        } else {
            Ok((a as u64, b as u64))
        },
    }
}

/// Plans a balanced deposit: the amounts of token A and token B that the user
/// pays for `pool_tokens` LP tokens.
pub fn plan_deposit_all_tokens(
    pool_tokens: u64,
    max_token_a: u64,
    max_token_b: u64,
    pool_mint_supply: u64,
    pool_token_a: u64,
    pool_token_b: u64,
) -> (r: Result<(u64, u64), ExchangeError>)
    ensures
        r == deposit_all_spec(
            pool_tokens,
            max_token_a,
            max_token_b,
            pool_mint_supply,
            pool_token_a,
            pool_token_b,
        ),
{
    let (token_a, token_b) = calculate_trade_tokens_propotional_to_pool_tokens(
        pool_tokens as u128,
        pool_mint_supply as u128,
        pool_token_a as u128,
        pool_token_b as u128,
    )?;
    if token_a > max_token_a as u128 || token_b > max_token_b as u128 {
        return Err(ExchangeError::SlippageExceeded);
    }
    Ok((token_a as u64, token_b as u64))
}

/// A single-sided deposit of `source_amount`: refused when the user holds
/// less; else the LP tokens it is worth, which must fit in `u64`.
pub open spec fn deposit_single_spec(
    source_amount: u64,
    user_source_balance: u64,
    pool_source_balance: u64,
    pool_mint_supply: u64,
) -> Result<u64, ExchangeError> {
    if user_source_balance < source_amount {
        Err(ExchangeError::NotEnoughFunds)
    } else {
        match single_deposit_spec(
            source_amount as int,
            pool_source_balance as int,
            pool_mint_supply as int,
        ) {
            Err(e) => Err(e),
            Ok(tokens) => if tokens > u64::MAX {
                Err(ExchangeError::ConversionFailure)
            } else {
                Ok(tokens as u64)
            },
        }
    }
}

/// Plans a single-sided deposit: the LP tokens minted to the user.
pub fn plan_deposit_single_token(
    source_amount: u64,
    user_source_balance: u64,
    pool_source_balance: u64,
    pool_mint_supply: u64,
) -> (r: Result<u64, ExchangeError>)
    ensures
        r == deposit_single_spec(
            source_amount,
            user_source_balance,
            pool_source_balance,
            pool_mint_supply,
        ),
{
    if user_source_balance < source_amount {
        return Err(ExchangeError::NotEnoughFunds);
    }
    let tokens = calculate_pool_tokens_propotional_to_single_token_deposit(
        source_amount as u128,
        pool_source_balance as u128,
        pool_mint_supply as u128,
    )?;
    if tokens > u64::MAX as u128 {
        return Err(ExchangeError::ConversionFailure);
    }
    Ok(tokens as u64)
}

/// A single-sided withdrawal of `source_amount`: refused when the user's
/// account of that token holds less than the amount; else the LP tokens it
/// costs, which the user must hold.
pub open spec fn withdraw_single_spec(
    source_amount: u64,
    user_source_balance: u64,
    user_pool_token_balance: u64,
    pool_source_balance: u64,
    pool_mint_supply: u64,
) -> Result<u64, ExchangeError> {
    if user_source_balance < source_amount {
        Err(ExchangeError::NotEnoughFunds)
    } else {
        match single_redeem_spec(
            source_amount as int,
            pool_source_balance as int,
            pool_mint_supply as int,
        ) {
            Err(e) => Err(e),
            Ok(tokens) => if user_pool_token_balance < tokens {
                Err(ExchangeError::NotEnoughFunds)
            } else {
                Ok(tokens as u64)
            },
        }
    }
}

/// Plans a single-sided withdrawal: the LP tokens burnt from the user.
pub fn plan_withdraw_single_token(
    source_amount: u64,
    user_source_balance: u64,
    user_pool_token_balance: u64,
    pool_source_balance: u64,
    pool_mint_supply: u64,
) -> (r: Result<u64, ExchangeError>)
    ensures
        r == withdraw_single_spec(
            source_amount,
            user_source_balance,
            user_pool_token_balance,
            pool_source_balance,
            pool_mint_supply,
        ),
{
    if user_source_balance < source_amount {
        return Err(ExchangeError::NotEnoughFunds);
    }
    let tokens = calculate_pool_tokens_propotional_to_single_token_redeemed(
        source_amount as u128,
        pool_source_balance as u128,
        pool_mint_supply as u128,
    )?;
    if (user_pool_token_balance as u128) < tokens {
        return Err(ExchangeError::NotEnoughFunds);
    }
    Ok(tokens as u64)
}

} // verus!

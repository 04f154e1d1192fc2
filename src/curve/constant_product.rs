use crate::errors::ExchangeError;
use crate::fee::Fee;
use crate::math::{
    add_spec, ceil_div, ceil_div_spec, div_spec, fits_imprecise, imprecise_fits, imprecise_spec,
    mul_spec, precise_add, precise_div, precise_floor, precise_mul, precise_new, precise_root, precise_sqrt,
    precise_sub, precise_to_imprecise, sub_spec, Precise, PRECISION_HALF, PRECISION_ONE,
};
use vstd::prelude::*;

verus! {

/// The fee on `amount` at rate `numerator / denominator`: the floor of the
/// exact fee, raised to one unit when a nonzero rate would round it to zero.
/// `None` when a nonzero rate has a zero denominator or `amount * numerator`
/// does not fit in `u128`.
pub open spec fn fee_spec(amount: int, numerator: int, denominator: int) -> Option<int> {
    if numerator == 0 {
        Some(0)
    } else if denominator == 0 || amount * numerator > u128::MAX {
        None
    } else if amount * numerator / denominator == 0 {
        Some(1)
    } else {
        Some(amount * numerator / denominator)
    }
}

/// The fee owed on `source_amount` at the rate `fee_numerator / fee_denominator`.
pub fn calculate_fee(source_amount: u128, fee_numerator: u64, fee_denominator: u64) -> (r: Option<
    u128,
>)
    ensures
        match r {
            Some(fee) => fee_spec(
                source_amount as int,
                fee_numerator as int,
                fee_denominator as int,
            ) == Some(fee as int),
            None => fee_spec(
                source_amount as int,
                fee_numerator as int,
                fee_denominator as int,
            ) is None,
        },
{
    if fee_numerator == 0 {
        return Some(0);
    }
    let product = match source_amount.checked_mul(fee_numerator as u128) {
        Some(p) => p,
        None => return None,
    };
    let fee = match product.checked_div(fee_denominator as u128) {
        Some(f) => f,
        None => return None,
    };
    if fee == 0 {
        Some(1)
    } else {
        Some(fee)
    }
}

/// The outcome of a swap of `source` into a pool holding `pool_source` and
/// `pool_destination`: `(new source reserve, new destination reserve, source
/// amount taken with fees, destination amount paid out, owner fee, trading
/// fee)`, or `None` where a step leaves the range of `u128`.
///
/// Both fees are taken from the input. The rest of the input joins the
/// source reserve; the destination reserve shrinks to the product of the old
/// reserves divided by the new source reserve, rounded up, and the source
/// amount is cut back to the least one that still gives that quotient.
pub open spec fn swap_spec(source: int, pool_source: int, pool_destination: int, fee: Fee) -> Option<
    (int, int, int, int, int, int),
> {
    let trade = fee_spec(source, fee.trade_fee_numerator as int, fee.trade_fee_denominator as int);
    let owner = fee_spec(
        source,
        fee.owner_trade_fee_numerator as int,
        fee.owner_trade_fee_denominator as int,
    );
    if trade is None || owner is None {
        None
    } else {
        let total_fee = trade->0 + owner->0;
        let product = pool_source * pool_destination;
        let total_source = pool_source + (source - total_fee);
        if total_fee > source || product > u128::MAX || total_source > u128::MAX {
            None
        } else {
            match ceil_div_spec(product, total_source) {
                Some((total_destination, adjusted_source)) => {
                    if adjusted_source + total_fee > u128::MAX {
                        None
                    } else {
                        Some(
                            (
                                adjusted_source + total_fee,
                                total_destination,
                                adjusted_source - pool_source + total_fee,
                                pool_destination - total_destination,
                                owner->0,
                                trade->0,
                            ),
                        )
                    }
                },
                None => None,
            }
        }
    }
}

/// Whether a swap tuple is the outcome that `swap_spec` gives.
pub open spec fn swap_matches(
    r: (u128, u128, u128, u128, u128, u128),
    s: Option<(int, int, int, int, int, int)>,
) -> bool {
    s == Some((r.0 as int, r.1 as int, r.2 as int, r.3 as int, r.4 as int, r.5 as int))
}

/// The quotient and adjusted divisor of the swap's ceiling division never
/// pay out more than the destination reserve nor take back less than the
/// source reserve, and together they keep the product of the old reserves.
proof fn lemma_ceil_div_swap(a: int, b: int, s: int)
    requires
        0 <= a <= s,
        0 <= b,
        ceil_div_spec(a * b, s) is Some,
    ensures
        ({
            let (q, t) = ceil_div_spec(a * b, s)->0;
            &&& 0 < q <= b
            &&& a <= t <= s
            &&& q * t >= a * b
        }),
{
    let i = a * b;
    assert(s > 0 && i / s > 0);
    vstd::arithmetic::div_mod::lemma_fundamental_div_mod(i, s);
    assert(a > 0) by {
        if a == 0 {
            assert(i == 0) by (nonlinear_arith)
                requires
                    i == a * b,
                    a == 0,
            ;
            vstd::arithmetic::div_mod::lemma_basic_div(0, s);
        }
    }
    assert(i <= s * b) by (nonlinear_arith)
        requires
            i == a * b,
            a <= s,
            0 <= b,
    ;
    if i % s == 0 {
        let q = i / s;
        assert(q <= b) by (nonlinear_arith)
            requires
                i == s * q,
                i <= s * b,
                s > 0,
        ;
        assert(q * s == i) by (nonlinear_arith)
            requires
                i == s * q + 0,
        ;
    } else {
        let q0 = i / s;
        let q = q0 + 1;
        assert(0 < i % s < s) by {
            vstd::arithmetic::div_mod::lemma_mod_bound(i, s);
        }
        assert(q0 < b) by (nonlinear_arith)
            requires
                i == s * q0 + i % s,
                0 < i % s,
                i <= s * b,
                s > 0,
        ;
        assert(q * s > i) by (nonlinear_arith)
            requires
                i == s * q0 + i % s,
                i % s < s,
                q == q0 + 1,
        ;
        vstd::arithmetic::div_mod::lemma_fundamental_div_mod(i, q);
        vstd::arithmetic::div_mod::lemma_mod_bound(i, q);
        let f = i / q;
        assert(f >= a) by (nonlinear_arith)
            requires
                i == q * f + i % q,
                i % q < q,
                i == a * b,
                0 < q <= b,
                0 < a,
        ;
        assert(f < s) by (nonlinear_arith)
            requires
                i == q * f + i % q,
                0 <= i % q,
                q * s > i,
                q > 0,
        ;
        if i % q == 0 {
            assert(q * f == i);
        } else {
            assert(q * (f + 1) > i) by (nonlinear_arith)
                requires
                    i == q * f + i % q,
                    i % q < q,
            ;
        }
    }
}

/// The constant-product swap of `source_amount` into a pool holding
/// `pool_source_amount` and `pool_destination_amount`, with the fee schedule
/// `fee`. On success the tuple is `(new source reserve, new destination
/// reserve, source amount taken with fees, destination amount paid out, owner
/// fee, trading fee)`.
pub fn calculate_swap_amounts(
    source_amount: u128,
    pool_source_amount: u128,
    pool_destination_amount: u128,
    fee: &Fee,
) -> (r: Result<(u128, u128, u128, u128, u128, u128), ExchangeError>)
    ensures
        match r {
            Ok(t) => swap_matches(
                t,
                swap_spec(
                    source_amount as int,
                    pool_source_amount as int,
                    pool_destination_amount as int,
                    *fee,
                ),
            ),
            Err(e) => e == ExchangeError::NumeralOverflow && swap_spec(
                source_amount as int,
                pool_source_amount as int,
                pool_destination_amount as int,
                *fee,
            ) is None,
        },
        match r {
            Ok((new_source, new_destination, swapped_source, swapped_destination, _, _)) => {
                &&& new_source == pool_source_amount + swapped_source
                &&& new_destination == pool_destination_amount - swapped_destination
                &&& new_source * new_destination >= pool_source_amount * pool_destination_amount
                &&& swapped_source <= source_amount
                &&& swapped_destination <= pool_destination_amount
            },
            Err(_) => true,
        },
{
    let trading_fee = match calculate_fee(
        source_amount,
        fee.trade_fee_numerator,
        fee.trade_fee_denominator,
    ) {
        Some(f) => f,
        None => return Err(ExchangeError::NumeralOverflow),
    };
    let owner_fee = match calculate_fee(
        source_amount,
        fee.owner_trade_fee_numerator,
        fee.owner_trade_fee_denominator,
    ) {
        Some(f) => f,
        None => return Err(ExchangeError::NumeralOverflow),
    };
    let total_fee = match trading_fee.checked_add(owner_fee) {
        Some(t) => t,
        None => return Err(ExchangeError::NumeralOverflow),
    };
    let source_amount_after_fee = match source_amount.checked_sub(total_fee) {
        Some(s) => s,
        None => return Err(ExchangeError::NumeralOverflow),
    };
    // product = A * B
    let product = match pool_source_amount.checked_mul(pool_destination_amount) {
        Some(i) => i,
        None => return Err(ExchangeError::NumeralOverflow),
    };
    // A + A'
    let total_source_amount = match pool_source_amount.checked_add(source_amount_after_fee) {
        Some(t) => t,
        None => return Err(ExchangeError::NumeralOverflow),
    };
    // B - B' = product / (A + A'), rounded up
    let (total_destination_amount, total_source_amount) = match ceil_div(
        product,
        total_source_amount,
    ) {
        Some(p) => p,
        None => return Err(ExchangeError::NumeralOverflow),
    };
    proof {
        lemma_ceil_div_swap(
            pool_source_amount as int,
            pool_destination_amount as int,
            pool_source_amount + source_amount_after_fee,
        );
    }
    // B' = B - product / (A + A')
    let swapped_destination_amount = match pool_destination_amount.checked_sub(
        total_destination_amount,
    ) {
        Some(d) => d,
        None => return Err(ExchangeError::NumeralOverflow),
    };
    // A' = total source - A, with the fees on top
    let swapped_source_amount_with_fee = match (total_source_amount - pool_source_amount).checked_add(
        total_fee,
    ) {
        Some(s) => s,
        None => return Err(ExchangeError::NumeralOverflow),
    };
    let new_pool_source_amount = match pool_source_amount.checked_add(
        swapped_source_amount_with_fee,
    ) {
        Some(s) => s,
        None => return Err(ExchangeError::NumeralOverflow),
    };
    let new_pool_destination_amount = match pool_destination_amount.checked_sub(
        swapped_destination_amount,
    ) {
        Some(d) => d,
        None => return Err(ExchangeError::NumeralOverflow),
    };
    proof {
        let (q, t) = (total_destination_amount as int, total_source_amount as int);
        assert((t + total_fee) * q >= t * q) by (nonlinear_arith)
            requires
                q >= 0,
                total_fee >= 0,
        ;
        assert(q * t == t * q) by (nonlinear_arith);
    }
    Ok(
        (
            new_pool_source_amount,
            new_pool_destination_amount,
            swapped_source_amount_with_fee,
            swapped_destination_amount,
            owner_fee,
            trading_fee,
        ),
    )
}

/// The share `floor(part * amount / whole)` of an amount, with the same
/// failures as its checked computation: a zero `whole` is an invalid ratio,
/// and a product past `u128::MAX` an overflow.
pub open spec fn share_spec(part: int, whole: int, amount: int) -> Result<int, ExchangeError> {
    if whole == 0 {
        Err(ExchangeError::InvalidRatio)
    } else if part * amount > u128::MAX {
        Err(ExchangeError::NumeralOverflow)
    } else {
        Ok(part * amount / whole)
    }
}

/// Whether an amount or error is the one that a spec result gives.
pub open spec fn result_matches(r: Result<u128, ExchangeError>, s: Result<int, ExchangeError>) -> bool {
    match r {
        Ok(v) => s == Ok::<int, ExchangeError>(v as int),
        Err(e) => s == Err::<int, ExchangeError>(e),
    }
}

/// `floor(part * amount / whole)`, checked.
fn share(part: u128, whole: u128, amount: u128) -> (r: Result<u128, ExchangeError>)
    ensures
        result_matches(r, share_spec(part as int, whole as int, amount as int)),
{
    if whole == 0 {
        return Err(ExchangeError::InvalidRatio);
    }
    match part.checked_mul(amount) {
        Some(p) => Ok(p / whole),
        None => Err(ExchangeError::NumeralOverflow),
    }
}

/// The amounts of both pool tokens that `min_pool_token_amount` LP tokens
/// stand for, out of `pool_token_supply`: each the floor of its proportional
/// share, so that rounding favours the pool.
pub fn calculate_trade_tokens_propotional_to_pool_tokens(
    min_pool_token_amount: u128,
    pool_token_supply: u128,
    pool_token_a: u128,
    pool_token_b: u128,
) -> (r: Result<(u128, u128), ExchangeError>)
    ensures
        ({
            let a = share_spec(
                min_pool_token_amount as int,
                pool_token_supply as int,
                pool_token_a as int,
            );
            let b = share_spec(
                min_pool_token_amount as int,
                pool_token_supply as int,
                pool_token_b as int,
            );
            match r {
                Ok((token_a, token_b)) => a == Ok::<int, ExchangeError>(token_a as int) && b == Ok::<
                    int,
                    ExchangeError,
                >(token_b as int),
                Err(e) => (a == Err::<int, ExchangeError>(e)) || (a is Ok && b == Err::<
                    int,
                    ExchangeError,
                >(e)),
            }
        }),
{
    let token_a = match share(min_pool_token_amount, pool_token_supply, pool_token_a) {
        Ok(v) => v,
        Err(e) => return Err(e),
    };
    let token_b = match share(min_pool_token_amount, pool_token_supply, pool_token_b) {
        Ok(v) => v,
        Err(e) => return Err(e),
    };
    Ok((token_a, token_b))
}

/// The LP tokens that `token_amount` of one pool token stands for, in a pool
/// holding `pool_token_amount` of it against `pool_token_supply` LP tokens:
/// the floor of the proportional share, the inverse of
/// [`calculate_trade_tokens_propotional_to_pool_tokens`].
pub fn calculate_pool_tokens_propotional_to_trade_tokens(
    token_amount: u128,
    pool_token_supply: u128,
    pool_token_amount: u128,
) -> (r: Result<u128, ExchangeError>)
    ensures
        result_matches(
            r,
            share_spec(token_amount as int, pool_token_amount as int, pool_token_supply as int),
        ),
{
    share(token_amount, pool_token_amount, pool_token_supply)
}

/// LP tokens for a deposit once the square root of the reserve growth ratio
/// is known: `pool_supply * (root - 1)` in fixed point, truncated to whole
/// tokens.
pub open spec fn deposit_root_spec(root: int, pool_supply: int) -> Result<int, ExchangeError> {
    match sub_spec(root, PRECISION_ONE as int) {
        Some(ratio) => match mul_spec(pool_supply * PRECISION_ONE, ratio) {
            Some(v) => truncated_spec(v),
            None => Err(ExchangeError::NumeralOverflow),
        },
        None => Err(ExchangeError::NumeralOverflow),
    }
}

/// LP tokens for a withdrawal once the square root of the reserve shrink
/// ratio is known: `pool_supply * (1 - root)` in fixed point, truncated to
/// whole tokens.
pub open spec fn redeem_root_spec(root: int, pool_supply: int) -> Result<int, ExchangeError> {
    match sub_spec(PRECISION_ONE as int, root) {
        Some(ratio) => match mul_spec(pool_supply * PRECISION_ONE, ratio) {
            Some(v) => truncated_spec(v),
            None => Err(ExchangeError::NumeralOverflow),
        },
        None => Err(ExchangeError::NumeralOverflow),
    }
}

/// LP tokens minted for depositing `amount` of one asset into a pool that
/// holds `reserve` of it against `pool_supply` LP tokens:
/// `pool_supply * (sqrt((reserve + amount) / reserve) - 1)`, computed in
/// fixed point. A zero reserve is an invalid ratio.
pub open spec fn single_deposit_spec(amount: int, reserve: int, pool_supply: int) -> Result<
    int,
    ExchangeError,
> {
    if reserve == 0 {
        Err(ExchangeError::InvalidRatio)
    } else {
        match add_spec(amount * PRECISION_ONE, reserve * PRECISION_ONE) {
            Some(grown) => match div_spec(grown, reserve * PRECISION_ONE) {
                Some(ratio) => match precise_sqrt(ratio) {
                    Some(root) => deposit_root_spec(root, pool_supply),
                    None => Err(ExchangeError::NumeralOverflow),
                },
                None => Err(ExchangeError::NumeralOverflow),
            },
            None => Err(ExchangeError::NumeralOverflow),
        }
    }
}

/// LP tokens burnt for withdrawing `amount` of one asset from a pool that
/// holds `reserve` of it against `pool_supply` LP tokens:
/// `pool_supply * (1 - sqrt((reserve - amount) / reserve))`, computed in
/// fixed point. Withdrawing the whole reserve or more is an invalid ratio.
pub open spec fn single_redeem_spec(amount: int, reserve: int, pool_supply: int) -> Result<
    int,
    ExchangeError,
> {
    if amount >= reserve {
        Err(ExchangeError::InvalidRatio)
    } else {
        match div_spec((reserve - amount) * PRECISION_ONE, reserve * PRECISION_ONE) {
            Some(ratio) => match precise_sqrt(ratio) {
                Some(root) => redeem_root_spec(root, pool_supply),
                None => Err(ExchangeError::NumeralOverflow),
            },
            None => Err(ExchangeError::NumeralOverflow),
        }
    }
}

/// The fixed-point number for a whole amount.
fn whole(n: u128) -> (r: Result<Precise, ExchangeError>)
    ensures
        r matches Ok(p) && p.value() == n * PRECISION_ONE,
{
    match precise_new(n) {
        Some(p) => Ok(p),
        None => Err(ExchangeError::FailedToCreatePreciseNumber),
    }
}

/// The whole part of a fixed-point raw value: truncated, never rounded up,
/// and an overflow where it does not fit in `u128`.
pub open spec fn truncated_spec(v: int) -> Result<int, ExchangeError> {
    if v / PRECISION_ONE as int <= u128::MAX {
        Ok(v / PRECISION_ONE as int)
    } else {
        Err(ExchangeError::NumeralOverflow)
    }
}

/// Rounding a whole number of units to nearest leaves it as it is, and it
/// fits in `u128` exactly when its count of units does.
proof fn lemma_whole_units(k: int)
    requires
        k >= 0,
    ensures
        fits_imprecise(k * PRECISION_ONE) <==> k <= u128::MAX,
        imprecise_spec(k * PRECISION_ONE) == k,
{
    vstd::arithmetic::div_mod::lemma_fundamental_div_mod_converse(
        k * PRECISION_ONE + PRECISION_HALF,
        PRECISION_ONE as int,
        k,
        PRECISION_HALF as int,
    );
}

/// The whole part of a fixed-point number, where it fits in `u128`.
fn to_whole_tokens(v: &Precise) -> (r: Result<u128, ExchangeError>)
    ensures
        result_matches(r, truncated_spec(v.value())),
{
    let floor = match precise_floor(v) {
        Some(f) => f,
        None => return Err(ExchangeError::NumeralOverflow),
    };
    proof {
        vstd::arithmetic::div_mod::lemma_div_pos_is_pos(v.value(), PRECISION_ONE as int);
        lemma_whole_units(v.value() / PRECISION_ONE as int);
    }
    if !imprecise_fits(&floor) {
        return Err(ExchangeError::NumeralOverflow);
    }
    match precise_to_imprecise(&floor) {
        Some(n) => Ok(n),
        None => Err(ExchangeError::NumeralOverflow),
    }
}

/// A fixed-point share of at most one of the supply is at most the supply.
proof fn lemma_share_of_supply(pool_supply: int, ratio: int)
    requires
        0 <= pool_supply <= u128::MAX,
        0 <= ratio <= PRECISION_ONE,
    ensures
        mul_spec(pool_supply * PRECISION_ONE, ratio) matches Some(v) && v / PRECISION_ONE as int
            <= pool_supply,
{
    let a = pool_supply * PRECISION_ONE;
    assert(a * ratio <= pool_supply * PRECISION_ONE * PRECISION_ONE) by (nonlinear_arith)
        requires
            a == pool_supply * PRECISION_ONE,
            0 <= ratio <= PRECISION_ONE,
            pool_supply >= 0,
    ;
    assert(a * ratio >= 0) by (nonlinear_arith)
        requires
            a == pool_supply * PRECISION_ONE,
            0 <= ratio,
            pool_supply >= 0,
    ;
    let m = pool_supply * PRECISION_ONE;
    assert(pool_supply * PRECISION_ONE * PRECISION_ONE == m * PRECISION_ONE) by (nonlinear_arith)
        requires
            m == pool_supply * PRECISION_ONE,
    ;
    vstd::arithmetic::div_mod::lemma_div_is_ordered(
        a * ratio + PRECISION_HALF,
        m * PRECISION_ONE + PRECISION_HALF,
        PRECISION_ONE as int,
    );
    vstd::arithmetic::div_mod::lemma_fundamental_div_mod_converse(
        m * PRECISION_ONE + PRECISION_HALF,
        PRECISION_ONE as int,
        m,
        PRECISION_HALF as int,
    );
    let v = (a * ratio + PRECISION_HALF) / PRECISION_ONE as int;
    vstd::arithmetic::div_mod::lemma_div_is_ordered(v, m, PRECISION_ONE as int);
    vstd::arithmetic::div_mod::lemma_div_multiples_vanish(pool_supply, PRECISION_ONE as int);
    assert(PRECISION_ONE * pool_supply == m) by (nonlinear_arith)
        requires
            m == pool_supply * PRECISION_ONE,
    ;
}

/// The LP tokens for a single-sided deposit, from the square root `root` of
/// the reserve growth ratio and the LP supply.
pub fn pool_tokens_for_deposit_root(root: &Precise, pool_supply: u128) -> (r: Result<
    u128,
    ExchangeError,
>)
    ensures
        result_matches(r, deposit_root_spec(root.value(), pool_supply as int)),
{
    let one = whole(1)?;
    let supply = whole(pool_supply)?;
    let ratio = match precise_sub(root, &one) {
        Some(v) => v,
        None => return Err(ExchangeError::NumeralOverflow),
    };
    let amount = match precise_mul(&supply, &ratio) {
        Some(v) => v,
        None => return Err(ExchangeError::NumeralOverflow),
    };
    to_whole_tokens(&amount)
}

/// The LP tokens for a single-sided withdrawal, from the square root `root`
/// of the reserve shrink ratio and the LP supply.
pub fn pool_tokens_for_redeem_root(root: &Precise, pool_supply: u128) -> (r: Result<
    u128,
    ExchangeError,
>)
    ensures
        result_matches(r, redeem_root_spec(root.value(), pool_supply as int)),
        r matches Ok(burnt) ==> burnt <= pool_supply,
{
    let one = whole(1)?;
    let supply = whole(pool_supply)?;
    let ratio = match precise_sub(&one, root) {
        Some(v) => v,
        None => return Err(ExchangeError::NumeralOverflow),
    };
    proof {
        lemma_share_of_supply(pool_supply as int, ratio.value());
    }
    let amount = match precise_mul(&supply, &ratio) {
        Some(v) => v,
        None => return Err(ExchangeError::NumeralOverflow),
    };
    to_whole_tokens(&amount)
}

/*
    P ~ sqrt(A * B)
    P_new = P * sqrt((A + A') * (B + B')) / sqrt(A * B)
    P' = P_new - P = P * [ sqrt((A + A') * (B + B') / (A * B)) - 1 ]

    A single-sided deposit has B' = 0:

    P' = P * [ sqrt((A + A') / A) - 1 ]
*/

/// The LP tokens minted for a deposit of `source_amount` of one asset alone
/// into a pool holding `pool_source_amount` of it against `pool_supply` LP
/// tokens.
pub fn calculate_pool_tokens_propotional_to_single_token_deposit(
    source_amount: u128,
    pool_source_amount: u128,
    pool_supply: u128,
) -> (r: Result<u128, ExchangeError>)
    ensures
        result_matches(
            r,
            single_deposit_spec(
                source_amount as int,
                pool_source_amount as int,
                pool_supply as int,
            ),
        ),
        source_amount == 0 && pool_source_amount > 0 ==> r == Ok::<u128, ExchangeError>(0),
        pool_source_amount == 0 ==> r == Err::<u128, ExchangeError>(ExchangeError::InvalidRatio),
{
    if pool_source_amount == 0 {
        return Err(ExchangeError::InvalidRatio);
    }
    let source = whole(source_amount)?;
    let reserve = whole(pool_source_amount)?;
    let grown = match precise_add(&source, &reserve) {
        Some(v) => v,
        None => return Err(ExchangeError::NumeralOverflow),
    };
    let ratio = match precise_div(&grown, &reserve) {
        Some(v) => v,
        None => return Err(ExchangeError::NumeralOverflow),
    };
    proof {
        if source_amount == 0 {
            lemma_unit_ratio(pool_source_amount as int);
            lemma_times_zero(pool_supply as int);
        }
    }
    let root = match precise_root(&ratio) {
        Some(v) => v,
        None => return Err(ExchangeError::NumeralOverflow),
    };
    pool_tokens_for_deposit_root(&root, pool_supply)
}

/*
    P ~ sqrt(A * B)
    P_new = P * sqrt((A - A') * (B - B')) / sqrt(A * B)
    P' = P - P_new = P * [ 1 - sqrt((A - A') * (B - B') / (A * B)) ]

    A single-sided withdrawal has B' = 0:

    P' = P * [ 1 - sqrt((A - A') / A) ]
*/

/// The LP tokens burnt for a withdrawal of `source_amount` of one asset alone
/// from a pool holding `pool_source_amount` of it against `pool_supply` LP
/// tokens.
pub fn calculate_pool_tokens_propotional_to_single_token_redeemed(
    source_amount: u128,
    pool_source_amount: u128,
    pool_supply: u128,
) -> (r: Result<u128, ExchangeError>)
    ensures
        result_matches(
            r,
            single_redeem_spec(
                source_amount as int,
                pool_source_amount as int,
                pool_supply as int,
            ),
        ),
        source_amount == 0 && pool_source_amount > 0 ==> r == Ok::<u128, ExchangeError>(0),
        source_amount >= pool_source_amount ==> r == Err::<u128, ExchangeError>(
            ExchangeError::InvalidRatio,
        ),
        r matches Ok(burnt) ==> burnt <= pool_supply,
{
    if source_amount >= pool_source_amount {
        return Err(ExchangeError::InvalidRatio);
    }
    let source = whole(source_amount)?;
    let reserve = whole(pool_source_amount)?;
    let remaining = match precise_sub(&reserve, &source) {
        Some(v) => v,
        None => return Err(ExchangeError::NumeralOverflow),
    };
    let ratio = match precise_div(&remaining, &reserve) {
        Some(v) => v,
        None => return Err(ExchangeError::NumeralOverflow),
    };
    proof {
        if source_amount == 0 {
            lemma_unit_ratio(pool_source_amount as int);
            lemma_times_zero(pool_supply as int);
        }
    }
    let root = match precise_root(&ratio) {
        Some(v) => v,
        None => return Err(ExchangeError::NumeralOverflow),
    };
    pool_tokens_for_redeem_root(&root, pool_supply)
}

/// Converting LP tokens to one pool token and straight back never yields
/// more LP tokens than were converted: both directions round down. Where the
/// pool holds any of that token, the way back always succeeds.
pub proof fn lemma_pool_token_round_trip(lp_amount: u128, pool_token_supply: u128, pool_token: u128)
    requires
        pool_token > 0,
        share_spec(lp_amount as int, pool_token_supply as int, pool_token as int) is Ok,
    ensures
        ({
            let token = share_spec(
                lp_amount as int,
                pool_token_supply as int,
                pool_token as int,
            )->Ok_0;
            share_spec(token, pool_token as int, pool_token_supply as int) matches Ok(back)
                && back <= lp_amount
        }),
{
    let (l, s, p) = (lp_amount as int, pool_token_supply as int, pool_token as int);
    let t = l * p / s;
    vstd::arithmetic::div_mod::lemma_fundamental_div_mod(l * p, s);
    vstd::arithmetic::div_mod::lemma_mod_bound(l * p, s);
    assert(s * t <= l * p);
    assert(t * s <= p * l) by (nonlinear_arith)
        requires
            s * t <= l * p,
    ;
    assert(t * s <= u128::MAX) by (nonlinear_arith)
        requires
            t * s <= p * l,
            l * p <= u128::MAX,
    ;
    assert(t >= 0) by (nonlinear_arith)
        requires
            s > 0,
            l >= 0,
            p >= 0,
            t == l * p / s,
    ;
    assert(t * s / p <= l) by (nonlinear_arith)
        requires
            t * s <= p * l,
            p > 0,
            t >= 0,
            s > 0,
    ;
}

/// A swap of nothing through a fee-free schedule leaves both reserves as they
/// were and moves nothing. With a nonzero fee rate no such swap exists: the
/// fee owed on nothing is one unit, more than the amount.
pub proof fn lemma_swap_of_nothing(pool_source: u128, pool_destination: u128, fee: Fee)
    requires
        fee.trade_fee_numerator == 0,
        fee.owner_trade_fee_numerator == 0,
        pool_source > 0,
        pool_destination > 0,
        pool_source * pool_destination <= u128::MAX,
    ensures
        swap_spec(0, pool_source as int, pool_destination as int, fee) == Some(
            (pool_source as int, pool_destination as int, 0int, 0int, 0int, 0int),
        ),
{
    let (a, b) = (pool_source as int, pool_destination as int);
    assert((a * b) / a == b && (a * b) % a == 0) by {
        vstd::arithmetic::div_mod::lemma_div_multiples_vanish(b, a);
        vstd::arithmetic::div_mod::lemma_mod_multiples_basic(b, a);
        assert(a * b == b * a) by (nonlinear_arith);
    }
}

/// The fixed-point ratio of a positive reserve to itself is exactly one.
proof fn lemma_unit_ratio(reserve: int)
    requires
        0 < reserve <= u128::MAX,
    ensures
        div_spec(reserve * PRECISION_ONE, reserve * PRECISION_ONE) == Some(PRECISION_ONE as int),
{
    let d = reserve * PRECISION_ONE;
    let n = d * PRECISION_ONE;
    assert(n < 0x1_0000_0000_0000_0000_0000_0000_0000_0000_0000_0000_0000_0000_0000_0000int)
        by (nonlinear_arith)
        requires
            n == reserve * PRECISION_ONE * PRECISION_ONE,
            0 < reserve <= u128::MAX,
    ;
    assert(d > PRECISION_HALF) by (nonlinear_arith)
        requires
            d == reserve * PRECISION_ONE,
            reserve >= 1,
    ;
    assert(n == PRECISION_ONE * d) by (nonlinear_arith)
        requires
            n == d * PRECISION_ONE,
    ;
    vstd::arithmetic::div_mod::lemma_fundamental_div_mod_converse(
        n + PRECISION_HALF,
        d,
        PRECISION_ONE as int,
        PRECISION_HALF as int,
    );
}

/// A fixed-point product with zero rounds to zero whole tokens.
proof fn lemma_times_zero(pool_supply: int)
    requires
        0 <= pool_supply <= u128::MAX,
    ensures
        mul_spec(pool_supply * PRECISION_ONE, 0) == Some(0int),
        fits_imprecise(0),
        imprecise_spec(0) == 0,
{
    assert(pool_supply * PRECISION_ONE * 0 == 0) by (nonlinear_arith);
}

/// Converting nothing between LP tokens and pool tokens, either way, yields
/// nothing.
pub proof fn lemma_balanced_liquidity_of_nothing(reserve: u128, pool_token_supply: u128)
    requires
        reserve > 0,
    ensures
        share_spec(0, reserve as int, pool_token_supply as int) == Ok::<int, ExchangeError>(0),
        pool_token_supply > 0 ==> share_spec(0, pool_token_supply as int, reserve as int) == Ok::<
            int,
            ExchangeError,
        >(0),
{
    assert(0 * (pool_token_supply as int) == 0);
    assert(0 * (reserve as int) == 0);
}

} // verus!

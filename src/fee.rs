use vstd::prelude::*;

verus! {

/// The fee schedule of a pool: a trading fee that stays in the pool and an
/// owner fee, each a fraction `numerator / denominator` of the traded amount.
#[derive(Debug, Clone, Copy, PartialEq, Eq, Structural)]
pub struct Fee {
    pub trade_fee_numerator: u64,
    pub trade_fee_denominator: u64,
    pub owner_trade_fee_numerator: u64,
    pub owner_trade_fee_denominator: u64,
}

impl Fee {
    /// Bytes taken by a serialized fee schedule: four `u64` values.
    pub const MAX_SIZE: usize = 32;
}

} // verus!

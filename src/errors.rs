use vstd::prelude::*;

verus! {

/// Every way an exchange operation can fail.
#[derive(Debug, Clone, Copy, PartialEq, Eq, Structural)]
pub enum ExchangeError {
    /// The pool mint was expected to have no supply yet.
    PoolMintSupplyNotZero,
    /// The signing authority does not match the pool.
    InvalidAuthority,
    /// A mint does not belong to the pool.
    InvalidMint,
    /// A pool token account does not match the pool.
    InvalidPoolTokenAccount,
    /// The user does not hold enough tokens for the request.
    NotEnoughFunds,
    /// An amount does not fit the integer type it must be handed on in.
    ConversionFailure,
    /// The amounts needed exceed the limits the user gave.
    SlippageExceeded,
    /// Both sides of a pool would hold the same mint.
    SameTokenMints,
    /// A checked add, subtract, multiply or divide left the representable range.
    NumeralOverflow,
    /// A value could not be turned into a fixed-point number.
    FailedToCreatePreciseNumber,
    /// A divisor is zero, or a ratio falls outside the range its formula allows.
    InvalidRatio,
}

} // verus!

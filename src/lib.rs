//! Pricing engine of a two-asset constant-product exchange pool.
//!
//! Every operation here is a pure function of integer inputs: the swap
//! formula with its trading and owner fees, balanced and single-sided
//! liquidity conversions, and the per-instruction plans that decide what the
//! on-chain handlers transfer, mint and burn.
pub mod curve;
pub mod errors;
pub mod fee;
pub mod instructions;
pub mod math;

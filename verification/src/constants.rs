use vstd::prelude::*;

verus! {

/// Largest swap fee, in basis points: 10 000 basis points are the whole input.
pub const MAX_FEE_BPS: u16 = 10_000;
/// The fee that a pool is usually created with (0.30 %).
pub const DEFAULT_FEE_BPS: u16 = 30;
/// No fee.
pub const ZERO_FEE_BPS: u16 = 0;
/// Decimals of the LP mint, and of the pool's tokens for pricing.
pub const TOKEN_DECIMALS: u8 = 6;
/// Fixed-point precision handed to the curve for liquidity amounts.
pub const TOKEN_PRECISION: u32 = 1_000_000;
/// Seed of the pool that the program's tests create.
pub const DEFAULT_POOL_SEED: u64 = 123;
/// The amount zero.
pub const ZERO_AMOUNT: u64 = 0;

} // verus!

use vstd::prelude::*;

verus! {

/// A side of the curve: the token that a swap pays in.
#[derive(Clone, Copy, Debug, PartialEq, Eq, Structural)]
pub enum LiquidityPair {
    X,
    Y,
}

/// Amounts of token X and token Y, as the curve returns them for a change
/// of liquidity.
#[derive(Clone, Copy, Debug, PartialEq, Eq, Structural)]
pub struct XYAmounts {
    pub x: u64,
    pub y: u64,
}

/// What the curve returns for a swap: what goes into the pool, what comes
/// out of it, and the curve's own fee.
#[derive(Clone, Copy, Debug, PartialEq, Eq, Structural)]
pub struct SwapResult {
    pub deposit: u64,
    pub withdraw: u64,
    pub fee: u64,
}

/// The arguments of a curve computation of token amounts for `a` LP tokens,
/// in a pool that holds `x` and `y` and has issued `l` LP tokens.
#[derive(Clone, Copy, Debug, PartialEq, Eq, Structural)]
pub struct LiquidityQuery {
    pub x: u64,
    pub y: u64,
    pub l: u64,
    pub a: u64,
    pub precision: u32,
}

/// The arguments of a curve swap: the curve is set up with the balances `x`
/// and `y`, the LP supply `l`, the fee `fee` and the decimals `precision`,
/// then asked to swap `amount` paid in on `pair` for at least `min`.
#[derive(Clone, Copy, Debug, PartialEq, Eq, Structural)]
pub struct CurveSwap {
    pub x: u64,
    pub y: u64,
    pub l: u64,
    pub fee: u16,
    pub precision: Option<u8>,
    pub pair: LiquidityPair,
    pub amount: u64,
    pub min: u64,
}

} // verus!

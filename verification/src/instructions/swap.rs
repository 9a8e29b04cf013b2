use vstd::prelude::*;

use crate::actions::{Action, Holder, Signer, net_change, lp_change};
use crate::constants::{MAX_FEE_BPS, TOKEN_DECIMALS, ZERO_AMOUNT, ZERO_FEE_BPS};
use crate::curve::{CurveSwap, LiquidityPair, SwapResult};
use crate::error::{AmmError, CurveError, curve_error_as_amm};
use crate::state::Config;
use crate::token_side::{TokenSide, select_for_side};

verus! {

/// What a swap reads of a pool.
#[derive(Clone, Copy, Debug)]
pub struct Swap {
    pub config: Config,
    /// The LP tokens issued.
    pub lp_supply: u64,
    /// The pool's balance of token X.
    pub vault_x: u64,
    /// The pool's balance of token Y.
    pub vault_y: u64,
}

/// An accepted swap request, waiting for the curve's answer: the side paid
/// in, the fee that goes to that side's treasury, and the curve swap to make.
#[derive(Clone, Copy, Debug)]
pub struct SwapQuote {
    pub input_side: TokenSide,
    pub fee_amount: u64,
    pub curve: CurveSwap,
}

/// The part of `amount` that stays for the curve under a fee of `fee` basis
/// points, rounded down.
pub open spec fn amount_after_fee(amount: u64, fee: u16) -> int {
    (amount as int) * ((MAX_FEE_BPS - fee) as int) / (MAX_FEE_BPS as int)
}

/// The part of `amount` that a fee of `fee` basis points takes.
pub open spec fn fee_of(amount: u64, fee: u16) -> int {
    amount - amount_after_fee(amount, fee)
}

/// The curve swap for a swap of `amount` paid in on the side `is_x` names.
pub open spec fn curve_swap_for(pool: Swap, is_x: bool, amount: u64, min: u64) -> CurveSwap {
    CurveSwap {
        x: pool.vault_x,
        y: pool.vault_y,
        l: pool.lp_supply,
        fee: ZERO_FEE_BPS,
        precision: Some(TOKEN_DECIMALS),
        pair: if is_x { LiquidityPair::X } else { LiquidityPair::Y },
        amount: amount_after_fee(amount, pool.config.fee) as u64,
        min,
    }
}

/// What a swap request gives: refused on a locked pool, for a zero input,
/// for a fee above 10 000 basis points, and when the fee leaves nothing of
/// the input; accepted otherwise, with the fee split off and the rest handed
/// to a curve that charges no fee of its own.
pub open spec fn swap_outcome(pool: Swap, is_x: bool, amount: u64, min: u64) -> Result<
    SwapQuote,
    AmmError,
> {
    if pool.config.locked {
        Err(AmmError::PoolLocked)
    } else if amount == 0 {
        Err(AmmError::InvalidAmount)
    } else if pool.config.fee > MAX_FEE_BPS {
        Err(AmmError::FeePercentErr)
    } else if amount_after_fee(amount, pool.config.fee) == 0 {
        Err(AmmError::InvalidAmount)
    } else {
        Ok(
            SwapQuote {
                input_side: TokenSide::of_bool(is_x),
                fee_amount: fee_of(amount, pool.config.fee) as u64,
                curve: curve_swap_for(pool, is_x, amount, min),
            },
        )
    }
}

/// The token movements of a swap paid in on `input`: the curve's deposit
/// into the vault, the fee into the treasury (when there is one), and the
/// curve's withdrawal from the other vault.
pub open spec fn swap_actions(input: TokenSide, fee_amount: u64, result: SwapResult) -> Seq<
    Action,
> {
    let deposit = Action::Transfer {
        side: input,
        from: Holder::User,
        to: Holder::Vault,
        signer: Signer::User,
        amount: result.deposit,
    };
    let fee = Action::Transfer {
        side: input,
        from: Holder::User,
        to: Holder::Treasury,
        signer: Signer::User,
        amount: fee_amount,
    };
    let withdraw = Action::Transfer {
        side: input.other(),
        from: Holder::Vault,
        to: Holder::User,
        signer: Signer::Pool,
        amount: result.withdraw,
    };
    if fee_amount == 0 {
        seq![deposit, withdraw]
    } else {
        seq![deposit, fee, withdraw]
    }
}

proof fn lemma_fee_bounds(amount: u64, fee: u16)
    requires
        fee <= MAX_FEE_BPS,
    ensures
        0 <= amount_after_fee(amount, fee) <= amount,
        (amount as int) * ((MAX_FEE_BPS - fee) as int) <= u128::MAX,
{
    let a = amount as int;
    let k = (MAX_FEE_BPS - fee) as int;
    assert(0 <= a * k <= a * 10000) by (nonlinear_arith)
        requires
            0 <= k <= 10000,
            0 <= a,
    ;
    assert(a * 10000 <= u128::MAX) by (nonlinear_arith)
        requires
            0 <= a <= u64::MAX,
    ;
    assert(a * k / 10000 <= a) by (nonlinear_arith)
        requires
            0 <= a * k <= a * 10000,
    ;
}

/// The fee split of a swap: for a fee of at most 10 000 basis points, the
/// part kept for the curve and the part taken as fee add up to the input,
/// neither is negative, and the fee is the input's share of `fee` basis
/// points rounded up, so the fee is never less than its exact share and
/// less than one unit more.
pub proof fn lemma_fee_split(amount: u64, fee: u16)
    requires
        fee <= MAX_FEE_BPS,
    ensures
        0 <= amount_after_fee(amount, fee) <= amount,
        0 <= fee_of(amount, fee) <= amount,
        amount_after_fee(amount, fee) + fee_of(amount, fee) == amount,
        (amount as int) * (fee as int) <= fee_of(amount, fee) * 10000 < (amount as int) * (
        fee as int) + 10000,
        fee == 0 ==> fee_of(amount, fee) == 0,
        fee == MAX_FEE_BPS ==> amount_after_fee(amount, fee) == 0,
{
    lemma_fee_bounds(amount, fee);
    let a = amount as int;
    let f = fee as int;
    let q = amount_after_fee(amount, fee);
    assert(q == a * (10000 - f) / 10000);
    assert(q * 10000 <= a * (10000 - f) < q * 10000 + 10000) by (nonlinear_arith)
        requires
            q == a * (10000 - f) / 10000,
    ;
    assert(a * (10000 - f) == a * 10000 - a * f) by (nonlinear_arith);
    assert((a - q) * 10000 == a * 10000 - q * 10000) by (nonlinear_arith);
    if fee == 0 {
        assert(a * 10000 / 10000 == a) by (nonlinear_arith);
    }
}

/// A larger input never keeps less for the curve.
pub proof fn lemma_after_fee_monotonic(small: u64, large: u64, fee: u16)
    requires
        fee <= MAX_FEE_BPS,
        small <= large,
    ensures
        amount_after_fee(small, fee) <= amount_after_fee(large, fee),
{
    let k = (MAX_FEE_BPS - fee) as int;
    assert((small as int) * k <= (large as int) * k) by (nonlinear_arith)
        requires
            0 <= k,
            small <= large,
    ;
    assert((small as int) * k / 10000 <= (large as int) * k / 10000) by (nonlinear_arith)
        requires
            (small as int) * k <= (large as int) * k,
    ;
}

/// A higher fee never keeps more of the same input for the curve.
pub proof fn lemma_higher_fee_keeps_less(amount: u64, low: u16, high: u16)
    requires
        low <= high <= MAX_FEE_BPS,
    ensures
        amount_after_fee(amount, high) <= amount_after_fee(amount, low),
{
    let a = amount as int;
    let kh = (MAX_FEE_BPS - high) as int;
    let kl = (MAX_FEE_BPS - low) as int;
    assert(a * kh <= a * kl) by (nonlinear_arith)
        requires
            0 <= a,
            kh <= kl,
    ;
    assert(a * kh / 10000 <= a * kl / 10000) by (nonlinear_arith)
        requires
            a * kh <= a * kl,
    ;
}

impl Swap {
    /// Checks a swap of `amount` paid in on side X (`is_x`) or Y for at
    /// least `min` of the other side, takes the fee, and returns the curve
    /// swap to make.
    pub fn swap(&self, is_x: bool, amount: u64, min: u64) -> (r: Result<SwapQuote, AmmError>)
        ensures
            r == swap_outcome(*self, is_x, amount, min),
            self.config.locked ==> r == Err::<SwapQuote, AmmError>(AmmError::PoolLocked),
            r matches Ok(q) ==> {
                &&& !self.config.locked
                &&& q.curve.x == self.vault_x
                &&& q.curve.y == self.vault_y
                &&& q.curve.l == self.lp_supply
                &&& q.curve.fee == 0
                &&& q.curve.precision == Some(6u8)
                &&& q.curve.min == min
                &&& (q.curve.pair == LiquidityPair::X <==> is_x)
                &&& (q.input_side == TokenSide::X <==> is_x)
                &&& q.curve.amount + q.fee_amount == amount
                &&& q.curve.amount * 10000 <= amount * (10000 - self.config.fee)
                &&& amount * (10000 - self.config.fee) < (q.curve.amount + 1) * 10000
            },
    {
        if self.config.locked {
            return Err(AmmError::PoolLocked);
        }
        if !(amount > ZERO_AMOUNT) {
            return Err(AmmError::InvalidAmount);
        }
        if !(self.config.fee <= MAX_FEE_BPS) {
            return Err(AmmError::FeePercentErr);
        }
        let input_side = TokenSide::from(is_x);

        proof {
            lemma_fee_bounds(amount, self.config.fee);
        }
        let fee_bps = match MAX_FEE_BPS.checked_sub(self.config.fee) {
            Some(v) => v,
            None => return Err(AmmError::InvalidFee),
        };
        let product = match (amount as u128).checked_mul(fee_bps as u128) {
            Some(v) => v,
            None => return Err(AmmError::Overflow),
        };
        let quotient = match product.checked_div(MAX_FEE_BPS as u128) {
            Some(v) => v,
            None => return Err(AmmError::Overflow),
        };
        let amount_after_fee = quotient as u64;
        let fee_amount = match amount.checked_sub(amount_after_fee) {
            Some(v) => v,
            None => return Err(AmmError::Underflow),
        };
        if !(amount_after_fee > ZERO_AMOUNT) {
            return Err(AmmError::InvalidAmount);
        }

        let pair = select_for_side(input_side, LiquidityPair::X, LiquidityPair::Y);

        Ok(SwapQuote {
            input_side,
            fee_amount,
            curve: CurveSwap {
                x: self.vault_x,
                y: self.vault_y,
                l: self.lp_supply,
                fee: ZERO_FEE_BPS,
                precision: Some(TOKEN_DECIMALS),
                pair,
                amount: amount_after_fee,
                min,
            },
        })
    }
}

impl Swap {
    /// The movement of the curve's deposit from the user into the vault of
    /// `side`.
    fn deposit_tokens(side: TokenSide, amount: u64) -> (r: Action)
        ensures
            r == (Action::Transfer {
                side,
                from: Holder::User,
                to: Holder::Vault,
                signer: Signer::User,
                amount,
            }),
    {
        Action::Transfer { side, from: Holder::User, to: Holder::Vault, signer: Signer::User, amount }
    }

    /// The movement of the fee from the user into the treasury of `side`;
    /// none for a fee of zero.
    fn deposit_fee(side: TokenSide, amount: u64) -> (r: Option<Action>)
        ensures
            amount == 0 ==> r == None::<Action>,
            amount != 0 ==> r == Some(
                Action::Transfer {
                    side,
                    from: Holder::User,
                    to: Holder::Treasury,
                    signer: Signer::User,
                    amount,
                },
            ),
    {
        if amount == ZERO_AMOUNT {
            return None;
        }
        Some(
            Action::Transfer {
                side,
                from: Holder::User,
                to: Holder::Treasury,
                signer: Signer::User,
                amount,
            },
        )
    }

    /// The movement of the curve's withdrawal from the vault of the side
    /// opposite to `input_side` to the user, signed by the pool.
    fn withdraw_tokens(input_side: TokenSide, amount: u64) -> (r: Action)
        ensures
            r == (Action::Transfer {
                side: input_side.other(),
                from: Holder::Vault,
                to: Holder::User,
                signer: Signer::Pool,
                amount,
            }),
    {
        let output_side = input_side.opposite();
        Action::Transfer {
            side: output_side,
            from: Holder::Vault,
            to: Holder::User,
            signer: Signer::Pool,
            amount,
        }
    }
}

impl SwapQuote {
    /// Completes a swap with what the curve returned for `self.curve`: the
    /// curve's error becomes the pool's, and a result becomes the swap's
    /// token movements.
    pub fn finish(&self, result: Result<SwapResult, CurveError>) -> (r: Result<Vec<Action>, AmmError>)
        ensures
            match result {
                Err(e) => r == Err::<Vec<Action>, AmmError>(curve_error_as_amm(e)),
                Ok(res) => r matches Ok(v) && v@ == swap_actions(
                    self.input_side,
                    self.fee_amount,
                    res,
                ),
            },
            r matches Ok(v) ==> {
                let input = self.input_side;
                let output = self.input_side.other();
                let res = result->Ok_0;
                &&& net_change(v@, Holder::Vault, input) == res.deposit
                &&& net_change(v@, Holder::Treasury, input) == self.fee_amount
                &&& net_change(v@, Holder::User, input) == -(res.deposit + self.fee_amount)
                &&& net_change(v@, Holder::Vault, output) == -res.withdraw
                &&& net_change(v@, Holder::User, output) == res.withdraw
                &&& net_change(v@, Holder::Treasury, output) == 0
                &&& net_change(v@, Holder::Destination, input) == 0
                &&& net_change(v@, Holder::Destination, output) == 0
                &&& lp_change(v@) == 0
            },
    {
        let res = match result {
            Ok(res) => res,
            Err(e) => return Err(AmmError::from(e)),
        };
        let mut actions: Vec<Action> = Vec::new();
        actions.push(Swap::deposit_tokens(self.input_side, res.deposit));
        match Swap::deposit_fee(self.input_side, self.fee_amount) {
            Some(a) => actions.push(a),
            None => {},
        }
        actions.push(Swap::withdraw_tokens(self.input_side, res.withdraw));
        proof {
            reveal_with_fuel(net_change, 4);
            reveal_with_fuel(lp_change, 4);
            assert(actions@ =~= swap_actions(self.input_side, self.fee_amount, res));
        }
        Ok(actions)
    }
}

} // verus!

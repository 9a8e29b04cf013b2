use vstd::prelude::*;

use crate::actions::{Action, Holder, Signer, net_change, lp_change};
use crate::constants::{TOKEN_PRECISION, ZERO_AMOUNT};
use crate::curve::{LiquidityQuery, XYAmounts};
use crate::error::{AmmError, CurveError, curve_error_as_amm};
use crate::state::Config;
use crate::token_side::TokenSide;

verus! {

/// What a withdrawal reads of a pool.
#[derive(Clone, Copy, Debug)]
pub struct Withdraw {
    pub config: Config,
    /// The LP tokens issued.
    pub lp_supply: u64,
    /// The pool's balance of token X.
    pub vault_x: u64,
    /// The pool's balance of token Y.
    pub vault_y: u64,
}

/// An accepted withdrawal, waiting for the curve's token amounts for the LP
/// tokens given back.
#[derive(Clone, Copy, Debug)]
pub struct WithdrawQuote {
    /// The curve computation to make; its `a` is the LP amount to burn.
    pub curve: LiquidityQuery,
    /// The least of token X that the user takes.
    pub min_x: u64,
    /// The least of token Y that the user takes.
    pub min_y: u64,
}

/// What a withdrawal request gives: refused on a locked pool, for zero LP
/// tokens and for more LP tokens than exist; accepted otherwise, waiting for
/// the curve to price the LP tokens at the pool's balances and supply.
pub open spec fn withdraw_outcome(pool: Withdraw, amount: u64, min_x: u64, min_y: u64) -> Result<
    WithdrawQuote,
    AmmError,
> {
    if pool.config.locked {
        Err(AmmError::PoolLocked)
    } else if amount == 0 {
        Err(AmmError::InvalidAmount)
    } else if amount > pool.lp_supply {
        Err(AmmError::InsufficientBalance)
    } else {
        Ok(
            WithdrawQuote {
                curve: LiquidityQuery {
                    x: pool.vault_x,
                    y: pool.vault_y,
                    l: pool.lp_supply,
                    a: amount,
                    precision: TOKEN_PRECISION,
                },
                min_x,
                min_y,
            },
        )
    }
}

/// The token movements of a withdrawal of `x` and `y` for `lp` LP tokens:
/// the LP tokens are burnt first, then both vaults pay out.
pub open spec fn withdraw_actions(x: u64, y: u64, lp: u64) -> Seq<Action> {
    seq![
        Action::BurnLp { amount: lp },
        Action::Transfer {
            side: TokenSide::X,
            from: Holder::Vault,
            to: Holder::User,
            signer: Signer::Pool,
            amount: x,
        },
        Action::Transfer {
            side: TokenSide::Y,
            from: Holder::Vault,
            to: Holder::User,
            signer: Signer::Pool,
            amount: y,
        },
    ]
}

/// What the withdrawal movements of `x`, `y` for `lp` do to the balances:
/// the vaults pay `x` and `y` to the user, `lp` LP tokens are gone, and the
/// treasuries are untouched.
pub open spec fn withdraw_effect(actions: Seq<Action>, x: u64, y: u64, lp: u64) -> bool {
    &&& net_change(actions, Holder::Vault, TokenSide::X) == -x
    &&& net_change(actions, Holder::Vault, TokenSide::Y) == -y
    &&& net_change(actions, Holder::User, TokenSide::X) == x
    &&& net_change(actions, Holder::User, TokenSide::Y) == y
    &&& net_change(actions, Holder::Treasury, TokenSide::X) == 0
    &&& net_change(actions, Holder::Treasury, TokenSide::Y) == 0
    &&& net_change(actions, Holder::Destination, TokenSide::X) == 0
    &&& net_change(actions, Holder::Destination, TokenSide::Y) == 0
    &&& lp_change(actions) == -lp
}

impl Withdraw {
    /// Checks a withdrawal that gives back `amount` LP tokens for at least
    /// `min_x` of token X and `min_y` of token Y, and returns the curve
    /// computation that prices it.
    pub fn withdraw(&self, amount: u64, min_x: u64, min_y: u64) -> (r: Result<
        WithdrawQuote,
        AmmError,
    >)
        ensures
            r == withdraw_outcome(*self, amount, min_x, min_y),
            self.config.locked ==> r == Err::<WithdrawQuote, AmmError>(AmmError::PoolLocked),
            r matches Ok(q) ==> {
                &&& !self.config.locked
                &&& 0 < amount <= self.lp_supply
                &&& q.curve.x == self.vault_x
                &&& q.curve.y == self.vault_y
                &&& q.curve.l == self.lp_supply
                &&& q.curve.a == amount
                &&& q.curve.precision == 1_000_000u32
                &&& q.min_x == min_x
                &&& q.min_y == min_y
            },
    {
        if self.config.locked {
            return Err(AmmError::PoolLocked);
        }
        if amount == ZERO_AMOUNT {
            return Err(AmmError::InvalidAmount);
        }
        if !(amount <= self.lp_supply) {
            return Err(AmmError::InsufficientBalance);
        }
        Ok(
            WithdrawQuote {
                curve: LiquidityQuery {
                    x: self.vault_x,
                    y: self.vault_y,
                    l: self.lp_supply,
                    a: amount,
                    precision: TOKEN_PRECISION,
                },
                min_x,
                min_y,
            },
        )
    }

    /// The movement of `amount` of the token of `side` from the vault to
    /// the user, signed by the pool.
    fn withdraw_tokens(side: TokenSide, amount: u64) -> (r: Action)
        ensures
            r == (Action::Transfer {
                side,
                from: Holder::Vault,
                to: Holder::User,
                signer: Signer::Pool,
                amount,
            }),
    {
        Action::Transfer { side, from: Holder::Vault, to: Holder::User, signer: Signer::Pool, amount }
    }

    /// The burning of `amount` of the user's LP tokens, signed by the user.
    fn burn_lp_tokens(amount: u64) -> (r: Action)
        ensures
            r == (Action::BurnLp { amount }),
    {
        Action::BurnLp { amount }
    }
}

impl WithdrawQuote {
    /// Completes a withdrawal with the token amounts that the curve
    /// returned for `self.curve`: the curve's error becomes the pool's;
    /// amounts below the user's minimum are refused; others become the
    /// withdrawal's token movements, which burn `self.curve.a` LP tokens.
    pub fn finish(&self, quote: Result<XYAmounts, CurveError>) -> (r: Result<Vec<Action>, AmmError>)
        ensures
            match quote {
                Err(e) => r == Err::<Vec<Action>, AmmError>(curve_error_as_amm(e)),
                Ok(amounts) => if amounts.x >= self.min_x && amounts.y >= self.min_y {
                    (r matches Ok(v) && v@ == withdraw_actions(amounts.x, amounts.y, self.curve.a)
                        && withdraw_effect(v@, amounts.x, amounts.y, self.curve.a))
                } else {
                    r == Err::<Vec<Action>, AmmError>(AmmError::SlippageExceeded)
                },
            },
    {
        let amounts = match quote {
            Ok(amounts) => amounts,
            Err(e) => return Err(AmmError::from(e)),
        };
        let (x, y) = (amounts.x, amounts.y);
        if !(x >= self.min_x && y >= self.min_y) {
            return Err(AmmError::SlippageExceeded);
        }
        let mut actions: Vec<Action> = Vec::new();
        actions.push(Withdraw::burn_lp_tokens(self.curve.a));
        actions.push(Withdraw::withdraw_tokens(TokenSide::X, x));
        actions.push(Withdraw::withdraw_tokens(TokenSide::Y, y));
        proof {
            reveal_with_fuel(net_change, 4);
            reveal_with_fuel(lp_change, 4);
            assert(actions@ =~= withdraw_actions(x, y, self.curve.a));
        }
        Ok(actions)
    }
}

} // verus!

use vstd::prelude::*;

use crate::actions::{Action, Holder, Signer, net_change, lp_change};
use crate::constants::{TOKEN_PRECISION, ZERO_AMOUNT};
use crate::curve::{LiquidityQuery, XYAmounts};
use crate::error::{AmmError, CurveError, curve_error_as_amm};
use crate::state::Config;
use crate::token_side::TokenSide;

verus! {

/// What a deposit reads of a pool.
#[derive(Clone, Copy, Debug)]
pub struct Deposit {
    pub config: Config,
    /// The LP tokens issued.
    pub lp_supply: u64,
    /// The pool's balance of token X.
    pub vault_x: u64,
    /// The pool's balance of token Y.
    pub vault_y: u64,
}

/// An accepted deposit into a pool that already holds liquidity, waiting for
/// the curve's token amounts for the LP tokens asked for.
#[derive(Clone, Copy, Debug)]
pub struct DepositQuote {
    /// The curve computation to make; its `a` is the LP amount to mint.
    pub curve: LiquidityQuery,
    /// The most of token X that the user pays.
    pub max_x: u64,
    /// The most of token Y that the user pays.
    pub max_y: u64,
}

/// The outcome of the checks of a deposit.
#[derive(Debug)]
pub enum DepositStep {
    /// The token movements to perform.
    Execute(Vec<Action>),
    /// The curve must price the deposit first.
    Quote(DepositQuote),
}

impl Deposit {
    /// Whether the pool has neither liquidity nor LP tokens yet.
    pub open spec fn is_empty_pool(self) -> bool {
        self.lp_supply == 0 && self.vault_x == 0 && self.vault_y == 0
    }
}

/// The token movements of a deposit of `x` and `y` for `lp` LP tokens.
pub open spec fn deposit_actions(x: u64, y: u64, lp: u64) -> Seq<Action> {
    seq![
        Action::Transfer {
            side: TokenSide::X,
            from: Holder::User,
            to: Holder::Vault,
            signer: Signer::User,
            amount: x,
        },
        Action::Transfer {
            side: TokenSide::Y,
            from: Holder::User,
            to: Holder::Vault,
            signer: Signer::User,
            amount: y,
        },
        Action::MintLp { amount: lp },
    ]
}

/// What the deposit movements of `x`, `y` for `lp` do to the balances: the
/// user pays `x` and `y` into the vaults, receives `lp` new LP tokens, and
/// the treasuries are untouched.
pub open spec fn deposit_effect(actions: Seq<Action>, x: u64, y: u64, lp: u64) -> bool {
    &&& net_change(actions, Holder::Vault, TokenSide::X) == x
    &&& net_change(actions, Holder::Vault, TokenSide::Y) == y
    &&& net_change(actions, Holder::User, TokenSide::X) == -x
    &&& net_change(actions, Holder::User, TokenSide::Y) == -y
    &&& net_change(actions, Holder::Treasury, TokenSide::X) == 0
    &&& net_change(actions, Holder::Treasury, TokenSide::Y) == 0
    &&& net_change(actions, Holder::Destination, TokenSide::X) == 0
    &&& net_change(actions, Holder::Destination, TokenSide::Y) == 0
    &&& lp_change(actions) == lp
}

impl Deposit {
    /// Checks a deposit that asks for `amount` LP tokens for at most `max_x`
    /// of token X and `max_y` of token Y. Into an empty pool the user pays
    /// exactly `max_x` and `max_y`; otherwise the curve prices the deposit.
    pub fn deposit(&self, amount: u64, max_x: u64, max_y: u64) -> (r: Result<DepositStep, AmmError>)
        ensures
            self.config.locked ==> (r matches Err(e) && e == AmmError::PoolLocked),
            !self.config.locked && amount == 0 ==> (r matches Err(e) && e
                == AmmError::InvalidAmount),
            !self.config.locked && amount != 0 && self.is_empty_pool() && (max_x == 0 || max_y
                == 0) ==> (r matches Err(e) && e == AmmError::InvalidAmount),
            !self.config.locked && amount != 0 && self.is_empty_pool() && max_x > 0 && max_y > 0
                ==> (r matches Ok(DepositStep::Execute(v)) && v@ == deposit_actions(
                max_x,
                max_y,
                amount,
            ) && deposit_effect(v@, max_x, max_y, amount)),
            !self.config.locked && amount != 0 && !self.is_empty_pool() ==> (r matches Ok(
                DepositStep::Quote(q),
            ) && q == (DepositQuote {
                curve: LiquidityQuery {
                    x: self.vault_x,
                    y: self.vault_y,
                    l: self.lp_supply,
                    a: amount,
                    precision: TOKEN_PRECISION,
                },
                max_x,
                max_y,
            })),
    {
        if self.config.locked {
            return Err(AmmError::PoolLocked);
        }
        if amount == ZERO_AMOUNT {
            return Err(AmmError::InvalidAmount);
        }
        if self.lp_supply == ZERO_AMOUNT && self.vault_x == ZERO_AMOUNT && self.vault_y
            == ZERO_AMOUNT {
            if !(max_x > ZERO_AMOUNT && max_y > ZERO_AMOUNT) {
                return Err(AmmError::InvalidAmount);
            }
            Ok(DepositStep::Execute(Deposit::deposit_actions(max_x, max_y, amount)))
        } else {
            Ok(
                DepositStep::Quote(
                    DepositQuote {
                        curve: LiquidityQuery {
                            x: self.vault_x,
                            y: self.vault_y,
                            l: self.lp_supply,
                            a: amount,
                            precision: TOKEN_PRECISION,
                        },
                        max_x,
                        max_y,
                    },
                ),
            )
        }
    }

    /// The movements that pay `x` and `y` into the vaults and mint `lp` LP
    /// tokens to the user.
    fn deposit_actions(x: u64, y: u64, lp: u64) -> (r: Vec<Action>)
        ensures
            r@ == deposit_actions(x, y, lp),
            deposit_effect(r@, x, y, lp),
    {
        let mut actions: Vec<Action> = Vec::new();
        actions.push(Deposit::deposit_tokens(TokenSide::X, x));
        actions.push(Deposit::deposit_tokens(TokenSide::Y, y));
        actions.push(Deposit::mint_lp_tokens(lp));
        proof {
            reveal_with_fuel(net_change, 4);
            reveal_with_fuel(lp_change, 4);
            assert(actions@ =~= deposit_actions(x, y, lp));
        }
        actions
    }

    /// The movement of `amount` of the token of `side` from the user into
    /// the vault, signed by the user.
    fn deposit_tokens(side: TokenSide, amount: u64) -> (r: Action)
        ensures
            r == (Action::Transfer {
                side,
                from: Holder::User,
                to: Holder::Vault,
                signer: Signer::User,
                amount,
            }),
    {
        Action::Transfer { side, from: Holder::User, to: Holder::Vault, signer: Signer::User, amount }
    }

    /// The minting of `amount` LP tokens to the user, signed by the pool.
    fn mint_lp_tokens(amount: u64) -> (r: Action)
        ensures
            r == (Action::MintLp { amount }),
    {
        Action::MintLp { amount }
    }
}

impl DepositQuote {
    /// Completes a deposit with the token amounts that the curve returned
    /// for `self.curve`: the curve's error becomes the pool's; amounts above
    /// the user's maximum are refused; others become the deposit's token
    /// movements, which mint `self.curve.a` LP tokens.
    pub fn finish(&self, quote: Result<XYAmounts, CurveError>) -> (r: Result<Vec<Action>, AmmError>)
        ensures
            match quote {
                Err(e) => r == Err::<Vec<Action>, AmmError>(curve_error_as_amm(e)),
                Ok(amounts) => if amounts.x <= self.max_x && amounts.y <= self.max_y {
                    (r matches Ok(v) && v@ == deposit_actions(amounts.x, amounts.y, self.curve.a)
                        && deposit_effect(v@, amounts.x, amounts.y, self.curve.a))
                } else {
                    r == Err::<Vec<Action>, AmmError>(AmmError::SlippageExceeded)
                },
            },
    {
        let amounts = match quote {
            Ok(amounts) => amounts,
            Err(e) => return Err(AmmError::from(e)),
        };
        if !(amounts.x <= self.max_x && amounts.y <= self.max_y) {
            return Err(AmmError::SlippageExceeded);
        }
        Ok(Deposit::deposit_actions(amounts.x, amounts.y, self.curve.a))
    }
}

} // verus!

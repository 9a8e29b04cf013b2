use vstd::prelude::*;

use crate::actions::{Action, Holder, Signer, net_change, lp_change};
use crate::constants::ZERO_AMOUNT;
use crate::error::AmmError;
use crate::state::{Config, Key, same_key};
use crate::token_side::{TokenSide, chosen, select_for_side};

verus! {

/// What a fee collection reads of a pool.
#[derive(Clone, Copy, Debug)]
pub struct CollectFees {
    pub config: Config,
    /// Who signs the collection.
    pub authority: Key,
    /// The fees kept in token X.
    pub treasury_x: u64,
    /// The fees kept in token Y.
    pub treasury_y: u64,
}

/// The movement of a treasury's whole balance `amount` of the token of
/// `side` to the authority, signed by the pool; none for an empty treasury.
pub open spec fn collect_actions_for(side: TokenSide, amount: u64) -> Seq<Action> {
    if amount == 0 {
        seq![]
    } else {
        seq![
            Action::Transfer {
                side,
                from: Holder::Treasury,
                to: Holder::Destination,
                signer: Signer::Pool,
                amount,
            },
        ]
    }
}

/// The token movements of a collection of `x` and `y`: token X first.
pub open spec fn collect_actions(x: u64, y: u64) -> Seq<Action> {
    collect_actions_for(TokenSide::X, x) + collect_actions_for(TokenSide::Y, y)
}

/// What a collection of the treasuries' balances `x` and `y` does: both
/// treasuries are emptied into the authority's accounts, and nothing else
/// changes.
pub open spec fn collect_effect(actions: Seq<Action>, x: u64, y: u64) -> bool {
    &&& net_change(actions, Holder::Treasury, TokenSide::X) == -x
    &&& net_change(actions, Holder::Treasury, TokenSide::Y) == -y
    &&& net_change(actions, Holder::Destination, TokenSide::X) == x
    &&& net_change(actions, Holder::Destination, TokenSide::Y) == y
    &&& net_change(actions, Holder::Vault, TokenSide::X) == 0
    &&& net_change(actions, Holder::Vault, TokenSide::Y) == 0
    &&& net_change(actions, Holder::User, TokenSide::X) == 0
    &&& net_change(actions, Holder::User, TokenSide::Y) == 0
    &&& lp_change(actions) == 0
}

impl CollectFees {
    /// Lets the pool's configured authority take all the fees kept in both
    /// treasuries.
    pub fn collect_fees(&self) -> (r: Result<Vec<Action>, AmmError>)
        ensures
            self.config.authority is None ==> r == Err::<Vec<Action>, AmmError>(
                AmmError::NoAuthoritySet,
            ),
            self.config.authority matches Some(k) && !same_key(k, self.authority) ==> r == Err::<
                Vec<Action>,
                AmmError,
            >(AmmError::InvalidAuthority),
            self.config.authority matches Some(k) && same_key(k, self.authority) ==> (r matches Ok(
                v,
            ) && v@ == collect_actions(self.treasury_x, self.treasury_y) && collect_effect(
                v@,
                self.treasury_x,
                self.treasury_y,
            )),
    {
        let configured_authority = match self.config.authority {
            Some(k) => k,
            None => return Err(AmmError::NoAuthoritySet),
        };
        if !(configured_authority == self.authority) {
            return Err(AmmError::InvalidAuthority);
        }
        let mut actions: Vec<Action> = Vec::new();
        match self.collect_token(TokenSide::X) {
            Some(a) => actions.push(a),
            None => {},
        }
        match self.collect_token(TokenSide::Y) {
            Some(a) => actions.push(a),
            None => {},
        }
        proof {
            reveal_with_fuel(net_change, 3);
            reveal_with_fuel(lp_change, 3);
            assert(actions@ =~= collect_actions(self.treasury_x, self.treasury_y));
        }
        Ok(actions)
    }

    /// The movement that empties the treasury of `side` into the
    /// authority's account; none when that treasury is empty.
    fn collect_token(&self, side: TokenSide) -> (r: Option<Action>)
        ensures
            collect_actions_for(side, chosen(side, self.treasury_x, self.treasury_y)) == (match r {
                Some(a) => seq![a],
                None => Seq::<Action>::empty(),
            }),
    {
        let amount = select_for_side(side, self.treasury_x, self.treasury_y);
        if amount == ZERO_AMOUNT {
            return None;
        }
        Some(
            Action::Transfer {
                side,
                from: Holder::Treasury,
                to: Holder::Destination,
                signer: Signer::Pool,
                amount,
            },
        )
    }
}

} // verus!

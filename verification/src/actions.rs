use vstd::prelude::*;

use crate::token_side::TokenSide;

verus! {

/// An owner of token accounts that a pool instruction moves tokens between.
/// Each holder has one account per side.
#[derive(Clone, Copy, Debug, PartialEq, Eq, Structural)]
pub enum Holder {
    /// The user who signs the instruction.
    User,
    /// The pool's liquidity.
    Vault,
    /// The pool's collected fees.
    Treasury,
    /// The accounts of the pool's authority that fees are collected to.
    Destination,
}

/// Who signs a token movement.
#[derive(Clone, Copy, Debug, PartialEq, Eq, Structural)]
pub enum Signer {
    /// The user who signs the instruction.
    User,
    /// The pool itself, by its configuration account's seeds.
    Pool,
}

/// One token movement that an accepted instruction performs.
#[derive(Clone, Copy, Debug, PartialEq, Eq, Structural)]
pub enum Action {
    /// Move `amount` of the token of `side` from `from`'s account to `to`'s.
    Transfer { side: TokenSide, from: Holder, to: Holder, signer: Signer, amount: u64 },
    /// Mint `amount` LP tokens to the user, signed by the pool.
    MintLp { amount: u64 },
    /// Burn `amount` of the user's LP tokens, signed by the user.
    BurnLp { amount: u64 },
}

/// How much one action changes the balance of `holder` in the token of `side`.
pub open spec fn action_change(a: Action, holder: Holder, side: TokenSide) -> int {
    match a {
        Action::Transfer { side: s, from, to, amount, .. } => {
            if s == side {
                (if to == holder { amount as int } else { 0 }) - (if from == holder {
                    amount as int
                } else {
                    0
                })
            } else {
                0
            }
        },
        _ => 0,
    }
}

/// How much a list of actions changes the balance of `holder` in the token
/// of `side`.
pub open spec fn net_change(actions: Seq<Action>, holder: Holder, side: TokenSide) -> int
    decreases actions.len(),
{
    if actions.len() == 0 {
        0
    } else {
        net_change(actions.drop_last(), holder, side) + action_change(
            actions.last(),
            holder,
            side,
        )
    }
}

/// How much one action changes the LP supply (and the user's LP balance).
pub open spec fn action_lp_change(a: Action) -> int {
    match a {
        Action::MintLp { amount } => amount as int,
        Action::BurnLp { amount } => -(amount as int),
        _ => 0,
    }
}

/// How much a list of actions changes the LP supply (and the user's LP
/// balance).
pub open spec fn lp_change(actions: Seq<Action>) -> int
    decreases actions.len(),
{
    if actions.len() == 0 {
        0
    } else {
        lp_change(actions.drop_last()) + action_lp_change(actions.last())
    }
}

/// What a list of actions changes in all accounts of one side together.
pub open spec fn total_change(actions: Seq<Action>, side: TokenSide) -> int {
    net_change(actions, Holder::User, side) + net_change(actions, Holder::Vault, side)
        + net_change(actions, Holder::Treasury, side) + net_change(
        actions,
        Holder::Destination,
        side,
    )
}

/// Token movements only move tokens: whatever list of actions an instruction
/// performs, the tokens of each side held by all holders together stay the
/// same.
pub proof fn lemma_actions_conserve_tokens(actions: Seq<Action>, side: TokenSide)
    ensures
        total_change(actions, side) == 0,
    decreases actions.len(),
{
    if actions.len() > 0 {
        lemma_actions_conserve_tokens(actions.drop_last(), side);
    }
}

/// The change of a list of actions followed by one more action.
pub proof fn lemma_net_change_push(actions: Seq<Action>, a: Action, holder: Holder, side: TokenSide)
    ensures
        net_change(actions.push(a), holder, side) == net_change(actions, holder, side)
            + action_change(a, holder, side),
        lp_change(actions.push(a)) == lp_change(actions) + action_lp_change(a),
{
    assert(actions.push(a).drop_last() =~= actions);
}

/// Who must sign a movement out of `holder`'s accounts: the user for its own
/// accounts, the pool for the vaults and treasuries, and the authority (who
/// signs a collection as its user) for its own.
pub open spec fn owner(holder: Holder) -> Signer {
    match holder {
        Holder::User => Signer::User,
        Holder::Vault => Signer::Pool,
        Holder::Treasury => Signer::Pool,
        Holder::Destination => Signer::User,
    }
}

/// Every movement in `actions` is signed by the owner of the account it
/// takes tokens from.
pub open spec fn signed_by_owners(actions: Seq<Action>) -> bool {
    forall|i: int|
        0 <= i < actions.len() ==> match #[trigger] actions[i] {
            Action::Transfer { from, signer, .. } => signer == owner(from),
            _ => true,
        }
}

} // verus!

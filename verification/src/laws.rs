use vstd::prelude::*;

use crate::actions::{Holder, lemma_net_change_push, lp_change, net_change, signed_by_owners};
use crate::constants::MAX_FEE_BPS;
use crate::curve::{LiquidityPair, SwapResult};
use crate::error::AmmError;
use crate::instructions::collect_fees::collect_actions;
use crate::instructions::deposit::deposit_actions;
use crate::instructions::initialize::{Initialize, InitializeBumps, new_config};
use crate::instructions::swap::{Swap, SwapQuote, amount_after_fee, lemma_fee_split, swap_actions, swap_outcome};
use crate::instructions::withdraw::{Withdraw, WithdrawQuote, withdraw_actions, withdraw_outcome};
use crate::state::Key;
use crate::token_side::TokenSide;

verus! {

/// A pool that `init` created takes every swap whose input keeps something
/// after the fee, and refuses every other: and what it takes, it splits
/// into a fee and a part for the curve that add up to the input.
pub proof fn lemma_new_pool_swaps(
    accounts: Initialize,
    seed: u64,
    fee: u16,
    authority: Option<Key>,
    bumps: InitializeBumps,
    lp_supply: u64,
    vault_x: u64,
    vault_y: u64,
    is_x: bool,
    amount: u64,
    min: u64,
)
    requires
        fee <= MAX_FEE_BPS,
    ensures
        ({
            let pool = Swap {
                config: new_config(accounts, seed, fee, authority, bumps),
                lp_supply,
                vault_x,
                vault_y,
            };
            let r = swap_outcome(pool, is_x, amount, min);
            &&& (r is Ok <==> amount_after_fee(amount, fee) > 0)
            &&& r matches Ok(q) ==> q.fee_amount + q.curve.amount == amount && q.curve.min == min
        }),
{
    lemma_fee_split(amount, fee);
}

/// A pool that `init` created takes every withdrawal of at least one and
/// at most all of its LP tokens, and refuses every other.
pub proof fn lemma_new_pool_withdraws(
    accounts: Initialize,
    seed: u64,
    fee: u16,
    authority: Option<Key>,
    bumps: InitializeBumps,
    lp_supply: u64,
    vault_x: u64,
    vault_y: u64,
    amount: u64,
    min_x: u64,
    min_y: u64,
)
    ensures
        ({
            let pool = Withdraw {
                config: new_config(accounts, seed, fee, authority, bumps),
                lp_supply,
                vault_x,
                vault_y,
            };
            withdraw_outcome(pool, amount, min_x, min_y) is Ok <==> 0 < amount <= lp_supply
        }),
{
}

/// A withdrawal undoes a deposit of the same token amounts for the same LP
/// tokens: together they change no balance of any holder and no LP supply.
pub proof fn lemma_withdraw_undoes_deposit(x: u64, y: u64, lp: u64, holder: Holder, side: TokenSide)
    ensures
        net_change(deposit_actions(x, y, lp) + withdraw_actions(x, y, lp), holder, side) == 0,
        lp_change(deposit_actions(x, y, lp) + withdraw_actions(x, y, lp)) == 0,
{
    let d = deposit_actions(x, y, lp);
    let w = withdraw_actions(x, y, lp);
    let both = d + w;
    assert(both =~= d.push(w[0]).push(w[1]).push(w[2]));
    lemma_net_change_push(d, w[0], holder, side);
    lemma_net_change_push(d.push(w[0]), w[1], holder, side);
    lemma_net_change_push(d.push(w[0]).push(w[1]), w[2], holder, side);
    reveal_with_fuel(net_change, 4);
    reveal_with_fuel(lp_change, 4);
}

/// No instruction takes tokens from an account without its owner's
/// signature: deposits and swaps debit the user's accounts with the user's
/// signature, and withdrawals, swap payouts and fee collections debit the
/// pool's vaults and treasuries with the pool's.
pub proof fn lemma_movements_signed_by_owners(
    x: u64,
    y: u64,
    lp: u64,
    input: TokenSide,
    fee_amount: u64,
    result: SwapResult,
)
    ensures
        signed_by_owners(deposit_actions(x, y, lp)),
        signed_by_owners(withdraw_actions(x, y, lp)),
        signed_by_owners(swap_actions(input, fee_amount, result)),
        signed_by_owners(collect_actions(x, y)),
{
}

/// A swap is priced on the pool as it stands, whichever side is paid in:
/// the curve is set up with the vault balances in place (X as X, Y as Y),
/// the LP supply, no fee of its own and the pool's decimals, and is asked
/// for at least the user's minimum on the side the user pays in. The input
/// is split into the part the curve gets and the fee, the curve's part
/// being the input's share of `10000 - fee` basis points rounded down.
pub proof fn lemma_swap_prices_the_pool_in_place(pool: Swap, is_x: bool, amount: u64, min: u64)
    ensures
        swap_outcome(pool, is_x, amount, min) matches Ok(q) ==> {
            &&& q.curve.x == pool.vault_x
            &&& q.curve.y == pool.vault_y
            &&& q.curve.l == pool.lp_supply
            &&& q.curve.fee == 0
            &&& q.curve.precision == Some(6u8)
            &&& q.curve.min == min
            &&& (q.curve.pair == LiquidityPair::X <==> is_x)
            &&& (q.input_side == TokenSide::X <==> is_x)
            &&& q.curve.amount + q.fee_amount == amount
            &&& q.curve.amount * 10000 <= amount * (10000 - pool.config.fee)
            &&& amount * (10000 - pool.config.fee) < (q.curve.amount + 1) * 10000
        },
{
    if swap_outcome(pool, is_x, amount, min) is Ok {
        lemma_fee_split(amount, pool.config.fee);
        let a = amount as int;
        let k = 10000 - pool.config.fee;
        let q = amount_after_fee(amount, pool.config.fee);
        assert(q * 10000 <= a * k < (q + 1) * 10000) by (nonlinear_arith)
            requires
                q == a * k / 10000,
        ;
    }
}

/// A locked pool refuses every swap, whichever side is paid in and
/// whatever the amount and minimum.
pub proof fn lemma_locked_pool_refuses_swaps(pool: Swap, is_x: bool, amount: u64, min: u64)
    requires
        pool.config.locked,
    ensures
        swap_outcome(pool, is_x, amount, min) == Err::<SwapQuote, AmmError>(
            AmmError::PoolLocked,
        ),
{
}

/// An unlocked pool whose fee is at most 10 000 basis points takes exactly
/// the swaps whose input keeps at least one unit after the fee, on either
/// side.
pub proof fn lemma_when_swaps_are_taken(pool: Swap, is_x: bool, amount: u64, min: u64)
    requires
        !pool.config.locked,
        pool.config.fee <= 10000,
    ensures
        swap_outcome(pool, is_x, amount, min) is Ok <==> amount * (10000 - pool.config.fee) >= 10000,
{
    let a = amount as int;
    let k = 10000 - pool.config.fee;
    assert(a * k / 10000 >= 1 <==> a * k >= 10000) by (nonlinear_arith)
        requires
            a >= 0,
            k >= 0,
    ;
    assert(a == 0 ==> a * k == 0) by (nonlinear_arith);
}

/// A withdrawal is priced on the pool as it stands: the curve is asked
/// for the LP tokens given back, with the vault balances in place (X as X,
/// Y as Y), the LP supply and the pool's precision, and the user's minimums
/// are kept as given.
pub proof fn lemma_withdraw_prices_the_pool_in_place(
    pool: Withdraw,
    amount: u64,
    min_x: u64,
    min_y: u64,
)
    ensures
        withdraw_outcome(pool, amount, min_x, min_y) matches Ok(q) ==> {
            &&& 0 < amount <= pool.lp_supply
            &&& q.curve.x == pool.vault_x
            &&& q.curve.y == pool.vault_y
            &&& q.curve.l == pool.lp_supply
            &&& q.curve.a == amount
            &&& q.curve.precision == 1_000_000u32
            &&& q.min_x == min_x
            &&& q.min_y == min_y
        },
{
}

/// A locked pool refuses every withdrawal, whatever the amount, even one
/// of the whole LP supply.
pub proof fn lemma_locked_pool_refuses_withdrawals(
    pool: Withdraw,
    amount: u64,
    min_x: u64,
    min_y: u64,
)
    requires
        pool.config.locked,
    ensures
        withdraw_outcome(pool, amount, min_x, min_y) == Err::<WithdrawQuote, AmmError>(AmmError::PoolLocked),
{
}

/// A new pool's configuration records what it was created with: the seed,
/// the fee, the authority, the mints and treasuries of the given accounts,
/// the bump of the configuration account as `config_bump` and that of the
/// LP mint as `lp_bump`; and it starts unlocked.
pub proof fn lemma_new_config_records_its_inputs(
    accounts: Initialize,
    seed: u64,
    fee: u16,
    authority: Option<Key>,
    bumps: InitializeBumps,
)
    ensures
        ({
            let c = new_config(accounts, seed, fee, authority, bumps);
            &&& c.seed == seed
            &&& c.fee == fee
            &&& c.authority == authority
            &&& c.mint_x == accounts.mint_x
            &&& c.mint_y == accounts.mint_y
            &&& c.treasury_x == accounts.treasury_x
            &&& c.treasury_y == accounts.treasury_y
            &&& !c.locked
            &&& c.config_bump == bumps.config
            &&& c.lp_bump == bumps.mint_lp
        }),
{
}

/// Why a swap is refused: on a locked pool whatever else; then for a zero
/// input; then for a fee above 10 000 basis points; then when the input keeps
/// nothing after the fee. A pool that is not locked and has a valid fee
/// refuses nothing else.
pub proof fn lemma_swap_refusals(pool: Swap, is_x: bool, amount: u64, min: u64)
    ensures
        ({
            let r = swap_outcome(pool, is_x, amount, min);
            &&& !pool.config.locked && amount == 0 ==> r == Err::<SwapQuote, AmmError>(
                AmmError::InvalidAmount,
            )
            &&& !pool.config.locked && amount > 0 && pool.config.fee > 10000 ==> r == Err::<
                SwapQuote,
                AmmError,
            >(AmmError::FeePercentErr)
            &&& !pool.config.locked && amount > 0 && pool.config.fee <= 10000 && amount * (10000
                - pool.config.fee) < 10000 ==> r == Err::<SwapQuote, AmmError>(
                AmmError::InvalidAmount,
            )
            &&& r matches Err(e) ==> e == AmmError::PoolLocked || e == AmmError::InvalidAmount
                || e == AmmError::FeePercentErr
        }),
{
    if !pool.config.locked && amount > 0 && pool.config.fee <= 10000 {
        lemma_when_swaps_are_taken(pool, is_x, amount, min);
    }
}

/// Why a withdrawal is refused: on a locked pool whatever else; then for
/// zero LP tokens; then for more LP tokens than exist. An unlocked pool
/// takes every withdrawal of one to all of its LP tokens.
pub proof fn lemma_withdraw_refusals(pool: Withdraw, amount: u64, min_x: u64, min_y: u64)
    ensures
        ({
            let r = withdraw_outcome(pool, amount, min_x, min_y);
            &&& !pool.config.locked && amount == 0 ==> r == Err::<WithdrawQuote, AmmError>(
                AmmError::InvalidAmount,
            )
            &&& !pool.config.locked && amount > pool.lp_supply ==> r == Err::<
                WithdrawQuote,
                AmmError,
            >(AmmError::InsufficientBalance)
            &&& !pool.config.locked && 0 < amount <= pool.lp_supply ==> r is Ok
        }),
{
}

/// What the movements of each instruction do to the balances, holder by
/// holder: a deposit moves `x` and `y` from the user into the vaults and
/// mints `lp`; a withdrawal burns `lp` and moves `x` and `y` from the vaults
/// to the user; a swap moves the curve's deposit from the user into the
/// input vault, the fee from the user into the input treasury, and the
/// curve's payout from the output vault to the user; a collection moves the
/// treasuries' balances to the authority. Nothing else changes.
pub proof fn lemma_movement_effects(
    x: u64,
    y: u64,
    lp: u64,
    input: TokenSide,
    fee_amount: u64,
    result: SwapResult,
)
    ensures
        ({
            let d = deposit_actions(x, y, lp);
            &&& net_change(d, Holder::User, TokenSide::X) == -x
            &&& net_change(d, Holder::User, TokenSide::Y) == -y
            &&& net_change(d, Holder::Vault, TokenSide::X) == x
            &&& net_change(d, Holder::Vault, TokenSide::Y) == y
            &&& net_change(d, Holder::Treasury, TokenSide::X) == 0
            &&& net_change(d, Holder::Treasury, TokenSide::Y) == 0
            &&& lp_change(d) == lp
        }),
        ({
            let w = withdraw_actions(x, y, lp);
            &&& net_change(w, Holder::User, TokenSide::X) == x
            &&& net_change(w, Holder::User, TokenSide::Y) == y
            &&& net_change(w, Holder::Vault, TokenSide::X) == -x
            &&& net_change(w, Holder::Vault, TokenSide::Y) == -y
            &&& net_change(w, Holder::Treasury, TokenSide::X) == 0
            &&& net_change(w, Holder::Treasury, TokenSide::Y) == 0
            &&& lp_change(w) == -lp
        }),
        ({
            let sw = swap_actions(input, fee_amount, result);
            let output = if input == TokenSide::X { TokenSide::Y } else { TokenSide::X };
            &&& net_change(sw, Holder::User, input) == -(result.deposit + fee_amount)
            &&& net_change(sw, Holder::Vault, input) == result.deposit
            &&& net_change(sw, Holder::Treasury, input) == fee_amount
            &&& net_change(sw, Holder::User, output) == result.withdraw
            &&& net_change(sw, Holder::Vault, output) == -result.withdraw
            &&& net_change(sw, Holder::Treasury, output) == 0
            &&& lp_change(sw) == 0
        }),
        ({
            let c = collect_actions(x, y);
            &&& net_change(c, Holder::Treasury, TokenSide::X) == -x
            &&& net_change(c, Holder::Treasury, TokenSide::Y) == -y
            &&& net_change(c, Holder::Destination, TokenSide::X) == x
            &&& net_change(c, Holder::Destination, TokenSide::Y) == y
            &&& net_change(c, Holder::Vault, TokenSide::X) == 0
            &&& net_change(c, Holder::Vault, TokenSide::Y) == 0
            &&& net_change(c, Holder::User, TokenSide::X) == 0
            &&& net_change(c, Holder::User, TokenSide::Y) == 0
            &&& lp_change(c) == 0
        }),
{
    reveal_with_fuel(net_change, 4);
    reveal_with_fuel(lp_change, 4);
}

} // verus!

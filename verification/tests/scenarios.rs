use amm_video::actions::{Action, Holder};
use amm_video::constants::{DEFAULT_FEE_BPS, DEFAULT_POOL_SEED, TOKEN_PRECISION, ZERO_AMOUNT};
use amm_video::curve::{SwapResult, XYAmounts};
use amm_video::token_side::TokenSide;
use amm_video::{
    AmmError, CollectFees, Config, CurveError, Deposit, DepositStep, Initialize, InitializeBumps,
    Key, Swap, Withdraw,
};

const INITIAL_LIQUIDITY: u64 = 1_000_000_000;
const INITIAL_LP_AMOUNT: u64 = 1_000_000_000;
const SECOND_LIQUIDITY: u64 = 500_000_000;
const SECOND_LP_AMOUNT: u64 = 500_000_000;
const USER_FUNDS: u64 = 10_000_000_000;
const SWAP_AMOUNT_IN: u64 = 1_000_000;
const SWAP_FEE_AMOUNT: u64 = 3_000;
const INVALID_FEE_BPS: u16 = 10_001;

fn key(b: u8) -> Key {
    Key { bytes: [b; 32] }
}

/// The balances that a sequence of pool instructions touches.
struct Ledger {
    tokens: [[u64; 2]; 4],
    user_lp: u64,
    lp_supply: u64,
}

fn holder_index(h: Holder) -> usize {
    match h {
        Holder::User => 0,
        Holder::Vault => 1,
        Holder::Treasury => 2,
        Holder::Destination => 3,
    }
}

fn side_index(s: TokenSide) -> usize {
    match s {
        TokenSide::X => 0,
        TokenSide::Y => 1,
    }
}

impl Ledger {
    fn new() -> Ledger {
        let mut tokens = [[0u64; 2]; 4];
        tokens[0] = [USER_FUNDS, USER_FUNDS];
        Ledger { tokens, user_lp: 0, lp_supply: 0 }
    }

    fn get(&self, h: Holder, s: TokenSide) -> u64 {
        self.tokens[holder_index(h)][side_index(s)]
    }

    fn apply(&mut self, actions: &[Action]) {
        for a in actions {
            match *a {
                Action::Transfer { side, from, to, amount, .. } => {
                    let f = &mut self.tokens[holder_index(from)][side_index(side)];
                    *f = f.checked_sub(amount).unwrap();
                    let t = &mut self.tokens[holder_index(to)][side_index(side)];
                    *t = t.checked_add(amount).unwrap();
                }
                Action::MintLp { amount } => {
                    self.user_lp += amount;
                    self.lp_supply += amount;
                }
                Action::BurnLp { amount } => {
                    self.user_lp -= amount;
                    self.lp_supply -= amount;
                }
            }
        }
    }

    fn deposit_view(&self, config: Config) -> Deposit {
        Deposit {
            config,
            lp_supply: self.lp_supply,
            vault_x: self.get(Holder::Vault, TokenSide::X),
            vault_y: self.get(Holder::Vault, TokenSide::Y),
        }
    }
}

fn initialize(fee: u16) -> Result<Config, AmmError> {
    let accounts = Initialize { mint_x: key(1), mint_y: key(2), treasury_x: key(3), treasury_y: key(4) };
    accounts.init(DEFAULT_POOL_SEED, fee, Some(key(9)), InitializeBumps { config: 255, mint_lp: 254 })
}

fn first_deposit(ledger: &mut Ledger, config: Config) {
    match ledger.deposit_view(config).deposit(INITIAL_LP_AMOUNT, INITIAL_LIQUIDITY, INITIAL_LIQUIDITY).unwrap() {
        DepositStep::Execute(actions) => ledger.apply(&actions),
        DepositStep::Quote(_) => panic!("the pool is empty"),
    }
}

fn swap_view(ledger: &Ledger, config: Config) -> Swap {
    Swap {
        config,
        lp_supply: ledger.lp_supply,
        vault_x: ledger.get(Holder::Vault, TokenSide::X),
        vault_y: ledger.get(Holder::Vault, TokenSide::Y),
    }
}

#[test]
fn test_initialize() {
    let config = initialize(DEFAULT_FEE_BPS).unwrap();
    assert_eq!(config.fee, DEFAULT_FEE_BPS);
    assert_eq!(config.treasury_x, key(3));
    assert_eq!(config.treasury_y, key(4));
    assert!(!config.locked);
    let ledger = Ledger::new();
    assert_eq!(ledger.lp_supply, ZERO_AMOUNT);
    assert_eq!(ledger.get(Holder::Vault, TokenSide::X), ZERO_AMOUNT);
    assert_eq!(ledger.get(Holder::Treasury, TokenSide::Y), ZERO_AMOUNT);
}

#[test]
fn test_deposit() {
    let config = initialize(DEFAULT_FEE_BPS).unwrap();
    let mut ledger = Ledger::new();
    first_deposit(&mut ledger, config);
    assert_eq!(ledger.get(Holder::Vault, TokenSide::X), INITIAL_LIQUIDITY);
    assert_eq!(ledger.get(Holder::Vault, TokenSide::Y), INITIAL_LIQUIDITY);
    assert_eq!(ledger.lp_supply, INITIAL_LP_AMOUNT);
    assert_eq!(ledger.user_lp, INITIAL_LP_AMOUNT);
}

#[test]
fn test_second_deposit_uses_token_precision() {
    let config = initialize(DEFAULT_FEE_BPS).unwrap();
    let mut ledger = Ledger::new();
    first_deposit(&mut ledger, config);
    let quote = match ledger
        .deposit_view(config)
        .deposit(SECOND_LP_AMOUNT, SECOND_LIQUIDITY, SECOND_LIQUIDITY)
        .unwrap()
    {
        DepositStep::Quote(q) => q,
        DepositStep::Execute(_) => panic!("the pool holds liquidity"),
    };
    assert_eq!(quote.curve.precision, TOKEN_PRECISION);
    assert_eq!(quote.curve.a, SECOND_LP_AMOUNT);
    // the curve prices half the supply at half the balances
    let actions = quote.finish(Ok(XYAmounts { x: SECOND_LIQUIDITY, y: SECOND_LIQUIDITY })).unwrap();
    ledger.apply(&actions);
    assert_eq!(ledger.get(Holder::Vault, TokenSide::X), INITIAL_LIQUIDITY + SECOND_LIQUIDITY);
    assert_eq!(ledger.get(Holder::Vault, TokenSide::Y), INITIAL_LIQUIDITY + SECOND_LIQUIDITY);
    assert_eq!(ledger.lp_supply, INITIAL_LP_AMOUNT + SECOND_LP_AMOUNT);
}

#[test]
fn test_withdraw() {
    let config = initialize(DEFAULT_FEE_BPS).unwrap();
    let mut ledger = Ledger::new();
    first_deposit(&mut ledger, config);
    let pool = Withdraw {
        config,
        lp_supply: ledger.lp_supply,
        vault_x: ledger.get(Holder::Vault, TokenSide::X),
        vault_y: ledger.get(Holder::Vault, TokenSide::Y),
    };
    let half = INITIAL_LP_AMOUNT / 2;
    let quote = pool.withdraw(half, 1, 1).unwrap();
    let actions = quote
        .finish(Ok(XYAmounts { x: INITIAL_LIQUIDITY / 2, y: INITIAL_LIQUIDITY / 2 }))
        .unwrap();
    ledger.apply(&actions);
    assert_eq!(ledger.get(Holder::Vault, TokenSide::X), INITIAL_LIQUIDITY / 2);
    assert_eq!(ledger.get(Holder::Vault, TokenSide::Y), INITIAL_LIQUIDITY / 2);
    assert_eq!(ledger.get(Holder::User, TokenSide::X), USER_FUNDS - INITIAL_LIQUIDITY / 2);
    assert_eq!(ledger.user_lp, INITIAL_LP_AMOUNT - half);
    assert_eq!(ledger.lp_supply, INITIAL_LP_AMOUNT - half);
}

fn swap_scenario(is_x: bool) -> Ledger {
    let config = initialize(DEFAULT_FEE_BPS).unwrap();
    let mut ledger = Ledger::new();
    first_deposit(&mut ledger, config);
    let quote = swap_view(&ledger, config).swap(is_x, SWAP_AMOUNT_IN, 1).unwrap();
    assert_eq!(quote.fee_amount, SWAP_FEE_AMOUNT);
    let deposit = quote.curve.amount;
    let actions = quote.finish(Ok(SwapResult { deposit, withdraw: 996_006, fee: 0 })).unwrap();
    ledger.apply(&actions);
    ledger
}

#[test]
fn test_swap() {
    let ledger = swap_scenario(true);
    assert_eq!(ledger.get(Holder::Vault, TokenSide::X), INITIAL_LIQUIDITY + SWAP_AMOUNT_IN - SWAP_FEE_AMOUNT);
    assert!(ledger.get(Holder::Vault, TokenSide::Y) < INITIAL_LIQUIDITY);
    assert_eq!(ledger.get(Holder::Treasury, TokenSide::X), SWAP_FEE_AMOUNT);
    assert_eq!(ledger.get(Holder::Treasury, TokenSide::Y), ZERO_AMOUNT);
}

#[test]
fn test_swap_reverse_direction() {
    let ledger = swap_scenario(false);
    assert_eq!(ledger.get(Holder::Vault, TokenSide::Y), INITIAL_LIQUIDITY + SWAP_AMOUNT_IN - SWAP_FEE_AMOUNT);
    assert!(ledger.get(Holder::Vault, TokenSide::X) < INITIAL_LIQUIDITY);
    assert_eq!(ledger.get(Holder::Treasury, TokenSide::X), ZERO_AMOUNT);
    assert_eq!(ledger.get(Holder::Treasury, TokenSide::Y), SWAP_FEE_AMOUNT);
}

#[test]
fn test_collect_fees() {
    let config = initialize(DEFAULT_FEE_BPS).unwrap();
    let mut ledger = swap_scenario(true);
    let request = CollectFees {
        config,
        authority: key(9),
        treasury_x: ledger.get(Holder::Treasury, TokenSide::X),
        treasury_y: ledger.get(Holder::Treasury, TokenSide::Y),
    };
    let actions = request.collect_fees().unwrap();
    ledger.apply(&actions);
    assert_eq!(ledger.get(Holder::Treasury, TokenSide::X), ZERO_AMOUNT);
    assert_eq!(ledger.get(Holder::Treasury, TokenSide::Y), ZERO_AMOUNT);
    assert_eq!(ledger.get(Holder::Destination, TokenSide::X), SWAP_FEE_AMOUNT);
}

#[test]
fn test_invalid_fee_is_rejected() {
    assert!(initialize(INVALID_FEE_BPS).is_err());
}

#[test]
fn test_zero_deposit_is_rejected() {
    let config = initialize(DEFAULT_FEE_BPS).unwrap();
    let ledger = Ledger::new();
    assert!(ledger.deposit_view(config).deposit(ZERO_AMOUNT, INITIAL_LIQUIDITY, INITIAL_LIQUIDITY).is_err());
}

#[test]
fn test_swap_slippage_is_rejected() {
    let config = initialize(DEFAULT_FEE_BPS).unwrap();
    let mut ledger = Ledger::new();
    first_deposit(&mut ledger, config);
    let quote = swap_view(&ledger, config).swap(true, SWAP_AMOUNT_IN, u64::MAX).unwrap();
    assert_eq!(quote.curve.min, u64::MAX);
    // the curve refuses an output below the minimum
    assert!(quote.finish(Err(CurveError::SlippageLimitExceeded)).is_err());
}

fn total(ledger: &Ledger, side: TokenSide) -> u64 {
    [Holder::User, Holder::Vault, Holder::Treasury, Holder::Destination]
        .iter()
        .map(|h| ledger.get(*h, side))
        .sum()
}

#[test]
fn every_instruction_keeps_the_token_totals() {
    let config = initialize(DEFAULT_FEE_BPS).unwrap();
    let mut ledger = swap_scenario(false);
    assert_eq!(total(&ledger, TokenSide::X), USER_FUNDS);
    assert_eq!(total(&ledger, TokenSide::Y), USER_FUNDS);
    let request = CollectFees {
        config,
        authority: key(9),
        treasury_x: ledger.get(Holder::Treasury, TokenSide::X),
        treasury_y: ledger.get(Holder::Treasury, TokenSide::Y),
    };
    ledger.apply(&request.collect_fees().unwrap());
    assert_eq!(total(&ledger, TokenSide::X), USER_FUNDS);
    assert_eq!(total(&ledger, TokenSide::Y), USER_FUNDS);
    assert_eq!(ledger.get(Holder::Destination, TokenSide::Y), SWAP_FEE_AMOUNT);
}

#[test]
fn withdrawing_what_was_deposited_restores_the_balances() {
    let config = initialize(DEFAULT_FEE_BPS).unwrap();
    let mut ledger = Ledger::new();
    first_deposit(&mut ledger, config);
    let quote = match ledger.deposit_view(config).deposit(7, 70, 90).unwrap() {
        DepositStep::Quote(q) => q,
        DepositStep::Execute(_) => panic!("the pool holds liquidity"),
    };
    let before_user_x = ledger.get(Holder::User, TokenSide::X);
    let before_vault_y = ledger.get(Holder::Vault, TokenSide::Y);
    let before_lp = ledger.lp_supply;
    ledger.apply(&quote.finish(Ok(XYAmounts { x: 70, y: 90 })).unwrap());
    let pool = Withdraw {
        config,
        lp_supply: ledger.lp_supply,
        vault_x: ledger.get(Holder::Vault, TokenSide::X),
        vault_y: ledger.get(Holder::Vault, TokenSide::Y),
    };
    let back = pool.withdraw(7, 70, 90).unwrap();
    ledger.apply(&back.finish(Ok(XYAmounts { x: 70, y: 90 })).unwrap());
    assert_eq!(ledger.get(Holder::User, TokenSide::X), before_user_x);
    assert_eq!(ledger.get(Holder::Vault, TokenSide::Y), before_vault_y);
    assert_eq!(ledger.lp_supply, before_lp);
}

#[test]
fn a_larger_input_keeps_more_and_a_higher_fee_keeps_less() {
    let low = Swap { config: initialize(10).unwrap(), lp_supply: 1, vault_x: 1, vault_y: 1 };
    let high = Swap { config: initialize(500).unwrap(), lp_supply: 1, vault_x: 1, vault_y: 1 };
    let a = low.swap(true, 12_345, 0).unwrap().curve.amount;
    let b = low.swap(true, 12_346, 0).unwrap().curve.amount;
    let c = high.swap(true, 12_345, 0).unwrap().curve.amount;
    assert!(a <= b);
    assert!(c <= a);
    assert_eq!(a, 12_332);
    assert_eq!(c, 11_727);
}

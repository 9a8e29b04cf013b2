use vstd::prelude::*;

use crate::constants::MAX_FEE_BPS;
use crate::error::AmmError;
use crate::state::{Config, Key};

verus! {

/// The accounts that a new pool's configuration records.
#[derive(Clone, Copy, Debug)]
pub struct Initialize {
    pub mint_x: Key,
    pub mint_y: Key,
    pub treasury_x: Key,
    pub treasury_y: Key,
}

/// The bumps of the program addresses that a new pool derives.
#[derive(Clone, Copy, Debug)]
pub struct InitializeBumps {
    pub config: u8,
    pub mint_lp: u8,
}

/// The configuration of a new, unlocked pool.
pub open spec fn new_config(
    accounts: Initialize,
    seed: u64,
    fee: u16,
    authority: Option<Key>,
    bumps: InitializeBumps,
) -> Config {
    Config {
        seed,
        authority,
        mint_x: accounts.mint_x,
        mint_y: accounts.mint_y,
        treasury_x: accounts.treasury_x,
        treasury_y: accounts.treasury_y,
        fee,
        locked: false,
        config_bump: bumps.config,
        lp_bump: bumps.mint_lp,
    }
}

impl Initialize {
    /// Creates the configuration of a pool with a fee of `fee` basis
    /// points, which must not exceed 10 000.
    pub fn init(&self, seed: u64, fee: u16, authority: Option<Key>, bumps: InitializeBumps) -> (r:
        Result<Config, AmmError>)
        ensures
            fee > MAX_FEE_BPS ==> r == Err::<Config, AmmError>(AmmError::FeePercentErr),
            fee <= MAX_FEE_BPS ==> r == Ok::<Config, AmmError>(
                new_config(*self, seed, fee, authority, bumps),
            ),
            r is Ok <==> fee <= 10000,
            r matches Ok(c) ==> {
                &&& c.seed == seed
                &&& c.fee == fee
                &&& c.authority == authority
                &&& c.mint_x == self.mint_x
                &&& c.mint_y == self.mint_y
                &&& c.treasury_x == self.treasury_x
                &&& c.treasury_y == self.treasury_y
                &&& !c.locked
                &&& c.config_bump == bumps.config
                &&& c.lp_bump == bumps.mint_lp
            },
    {
        if !(fee <= MAX_FEE_BPS) {
            return Err(AmmError::FeePercentErr);
        }
        Ok(
            Config {
                seed,
                authority,
                mint_x: self.mint_x,
                mint_y: self.mint_y,
                treasury_x: self.treasury_x,
                treasury_y: self.treasury_y,
                fee,
                locked: false,
                config_bump: bumps.config,
                lp_bump: bumps.mint_lp,
            },
        )
    }
}

} // verus!

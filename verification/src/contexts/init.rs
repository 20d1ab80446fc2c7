use vstd::prelude::*;

use crate::address::Address;
use crate::events::PoolInitialized;
use crate::state::Config;

verus! {

/// The accounts of a pool's creation, by address.
#[derive(Debug, Clone, Copy, PartialEq, Eq)]
pub struct Initialize {
    pub initializer: Address,
    pub mint_x: Address,
    pub mint_y: Address,
    pub mint_lp: Address,
    pub config: Address,
}

/// The bumps the runtime found for the pool's program-derived addresses.
#[derive(Debug, Clone, Copy, PartialEq, Eq)]
pub struct InitializeBumps {
    pub config: u8,
    pub mint_lp: u8,
}

/// What a pool's creation writes and announces, once its two vaults exist.
#[derive(Debug, Clone, Copy, PartialEq, Eq)]
pub struct PoolSetup {
    pub config: Config,
    pub event: PoolInitialized,
}

impl Initialize {
    /// The configuration of a pool created from these accounts and arguments.
    pub open spec fn new_config(
        self,
        seed: u64,
        fee: u16,
        authority: Option<Address>,
        bumps: InitializeBumps,
    ) -> Config {
        Config {
            seed,
            authority,
            mint_x: self.mint_x,
            mint_y: self.mint_y,
            fee,
            locked: false,
            config_bump: bumps.config,
            lp_bump: bumps.mint_lp,
        }
    }

    /// Fills the new pool's configuration, unlocked, and the announcement of its creation.
    pub fn init(
        &self,
        seed: u64,
        fee: u16,
        authority: Option<Address>,
        bumps: &InitializeBumps,
    ) -> (r: PoolSetup)
        ensures
            r.config == self.new_config(seed, fee, authority, *bumps),
            r.config.seed == seed,
            r.config.authority == authority,
            r.config.mint_x == self.mint_x,
            r.config.mint_y == self.mint_y,
            r.config.fee == fee,
            !r.config.locked,
            r.config.config_bump == bumps.config,
            r.config.lp_bump == bumps.mint_lp,
            r.event == (PoolInitialized {
                config: self.config,
                mint_x: self.mint_x,
                mint_y: self.mint_y,
                fee,
            }),
    {
        let config = Config {
            seed,
            authority,
            mint_x: self.mint_x,
            mint_y: self.mint_y,
            fee,
            locked: false,
            config_bump: bumps.config,
            lp_bump: bumps.mint_lp,
        };
        let event = PoolInitialized {
            config: self.config,
            mint_x: self.mint_x,
            mint_y: self.mint_y,
            fee,
        };
        PoolSetup { config, event }
    }
}

} // verus!

use vstd::prelude::*;

use crate::address::Address;

verus! {

/// The configuration of a pool, as it is stored on chain.
#[derive(Debug, Clone, Copy, PartialEq, Eq)]
pub struct Config {
    /// A number chosen by the creator, so that one pair of mints can have several pools.
    pub seed: u64,
    /// Who may lock and unlock the pool; `None` for a pool that nobody can lock.
    pub authority: Option<Address>,
    /// The mint of token X.
    pub mint_x: Address,
    /// The mint of token Y.
    pub mint_y: Address,
    /// The swap fee handed to the curve.
    pub fee: u16,
    /// Whether swaps and withdrawals are refused.
    pub locked: bool,
    /// The bump of the configuration's program-derived address.
    pub config_bump: u8,
    /// The bump of the liquidity mint's program-derived address.
    pub lp_bump: u8,
}

impl Config {
    /// This configuration with its lock flag set to `locked` and every other field kept.
    pub open spec fn with_locked(self, locked: bool) -> Config {
        Config { locked, ..self }
    }
}

} // verus!

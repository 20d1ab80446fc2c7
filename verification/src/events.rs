use vstd::prelude::*;

use crate::address::Address;

verus! {

/// Announced when a pool has been created.
#[derive(Debug, Clone, Copy, PartialEq, Eq)]
pub struct PoolInitialized {
    pub config: Address,
    pub mint_x: Address,
    pub mint_y: Address,
    pub fee: u16,
}

/// Announced when liquidity has been added to a pool.
#[derive(Debug, Clone, Copy, PartialEq, Eq)]
pub struct LiquidityAdded {
    pub config: Address,
    pub lp_provider: Address,
    pub amount_x: u64,
    pub amount_y: u64,
    pub lp_minted: u64,
}

/// Announced when liquidity has been taken out of a pool.
#[derive(Debug, Clone, Copy, PartialEq, Eq)]
pub struct LiquidityRemoved {
    pub config: Address,
    pub lp_provider: Address,
    pub amount_x: u64,
    pub amount_y: u64,
    pub lp_burned: u64,
}

/// Announced when a user has swapped one token of the pool for the other.
#[derive(Debug, Clone, Copy, PartialEq, Eq)]
pub struct Swapped {
    pub config: Address,
    pub user: Address,
    pub is_x: bool,
    pub amount_in: u64,
    pub amount_out: u64,
}

} // verus!

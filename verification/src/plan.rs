use vstd::prelude::*;

use crate::address::Address;
use crate::seeds::PoolSeeds;

verus! {

/// One of the two tokens of a pool.
#[derive(Debug, Clone, Copy, PartialEq, Eq, Structural)]
pub enum Side {
    X,
    Y,
}

impl Side {
    /// The side named by an `is_x` flag.
    pub open spec fn of(is_x: bool) -> Side {
        if is_x {
            Side::X
        } else {
            Side::Y
        }
    }

    /// The other token of the pool.
    pub open spec fn other(self) -> Side {
        match self {
            Side::X => Side::Y,
            Side::Y => Side::X,
        }
    }

    /// The side named by an `is_x` flag.
    pub fn from_is_x(is_x: bool) -> (r: Side)
        ensures
            r == Side::of(is_x),
    {
        if is_x {
            Side::X
        } else {
            Side::Y
        }
    }

    /// The other token of the pool.
    pub fn opposite(&self) -> (r: Side)
        ensures
            r == self.other(),
    {
        match self {
            Side::X => Side::Y,
            Side::Y => Side::X,
        }
    }
}

/// A token account that an instruction touches.
#[derive(Debug, Clone, Copy, PartialEq, Eq, Structural)]
pub enum TokenAccount {
    /// The pool's vault of one token; the pool's configuration owns it.
    Vault(Side),
    /// The signer's own account of one token.
    Owner(Side),
    /// The signer's own account of the pool's liquidity token.
    OwnerLp,
}

/// Who authorizes a movement of tokens.
#[derive(Debug, Clone, Copy, PartialEq, Eq)]
pub enum Authority {
    /// The signer of the instruction.
    Owner,
    /// The pool itself, signing with the seeds of its configuration's address.
    Pool(PoolSeeds),
}

/// A checked transfer of `amount` of one token, which the token program is asked to make.
#[derive(Debug, Clone, Copy, PartialEq, Eq)]
pub struct TransferPlan {
    pub from: TokenAccount,
    pub to: TokenAccount,
    pub mint: Side,
    pub authority: Authority,
    pub amount: u64,
    pub decimals: u8,
}

/// A burn of `amount` liquidity tokens from the signer's account, which the signer authorizes.
#[derive(Debug, Clone, Copy, PartialEq, Eq)]
pub struct BurnPlan {
    pub from: TokenAccount,
    pub authority: Authority,
    pub amount: u64,
}

/// The address and decimals of a mint.
#[derive(Debug, Clone, Copy, PartialEq, Eq)]
pub struct MintInfo {
    pub key: Address,
    pub decimals: u8,
}

} // verus!

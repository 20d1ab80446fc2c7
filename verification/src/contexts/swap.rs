use vstd::prelude::*;

use crate::address::Address;
use crate::error::AmmError;
use crate::events::Swapped;
use crate::plan::{Authority, MintInfo, Side, TokenAccount, TransferPlan};
use crate::seeds::PoolSeeds;
use crate::state::Config;

verus! {

/// What a user asks of a swap: which token goes in, how much, and the least
/// amount of the other token that the user accepts in return.
#[derive(Debug, Clone, Copy, PartialEq, Eq)]
pub struct SwapArgs {
    pub is_x: bool,
    pub amount: u64,
    pub min: u64,
}

/// The token that a swap puts into the curve.
#[derive(Debug, Clone, Copy, PartialEq, Eq, Structural)]
pub enum LiquidityPair {
    X,
    Y,
}

/// What the constant-product curve is asked for a swap: the curve is built from
/// the two vault balances, the liquidity supply and the fee, then asked to swap
/// `amount` of `pair` for no less than `min`.
#[derive(Debug, Clone, Copy, PartialEq, Eq)]
pub struct SwapQuery {
    pub x: u64,
    pub y: u64,
    pub l: u64,
    pub fee: u16,
    pub pair: LiquidityPair,
    pub amount: u64,
    pub min: u64,
}

/// What the curve answers to a swap: the amount that goes into the pool, the
/// amount that comes out of it, and the fee it kept.
#[derive(Debug, Clone, Copy, PartialEq, Eq)]
pub struct SwapQuote {
    pub deposit: u64,
    pub withdraw: u64,
    pub fee: u64,
}

/// The accounts of a swap, by what the swap reads of them.
#[derive(Debug, Clone, Copy, PartialEq, Eq)]
pub struct Swap {
    pub user: Address,
    pub config_key: Address,
    pub config: Config,
    pub lp_supply: u64,
    pub mint_x: MintInfo,
    pub mint_y: MintInfo,
    pub vault_x: u64,
    pub vault_y: u64,
}

/// What an accepted swap does: the user's deposit into one vault, the pool's
/// payment out of the other, and the announcement.
#[derive(Debug, Clone, Copy, PartialEq, Eq)]
pub struct SwapPlan {
    pub deposit: TransferPlan,
    pub withdraw: TransferPlan,
    pub event: Swapped,
}

impl Swap {
    /// The error with which a swap is refused before the curve is consulted, if any.
    pub open spec fn refusal(self, args: SwapArgs) -> Option<AmmError> {
        if args.amount == 0 {
            Some(AmmError::InvalidAmount)
        } else if self.config.locked {
            Some(AmmError::AMMLocked)
        } else {
            None
        }
    }

    /// The question put to the curve for `args`.
    pub open spec fn query(self, args: SwapArgs) -> SwapQuery {
        SwapQuery {
            x: self.vault_x,
            y: self.vault_y,
            l: self.lp_supply,
            fee: self.config.fee,
            pair: if args.is_x { LiquidityPair::X } else { LiquidityPair::Y },
            amount: args.amount,
            min: args.min,
        }
    }

    /// The mint of one side of the pool.
    pub open spec fn mint_of(self, side: Side) -> MintInfo {
        match side {
            Side::X => self.mint_x,
            Side::Y => self.mint_y,
        }
    }

    /// The seeds with which the pool signs for its vaults.
    pub open spec fn pool_seeds(self) -> PoolSeeds {
        PoolSeeds {
            mint_x: self.mint_x.key,
            mint_y: self.mint_y.key,
            seed: self.config.seed,
            bump: self.config.config_bump,
        }
    }

    /// The user's transfer of `amount` of the token that goes in, into its vault.
    pub open spec fn deposit_transfer(self, args: SwapArgs, amount: u64) -> TransferPlan {
        let side = Side::of(args.is_x);
        TransferPlan {
            from: TokenAccount::Owner(side),
            to: TokenAccount::Vault(side),
            mint: side,
            authority: Authority::Owner,
            amount,
            decimals: self.mint_of(side).decimals,
        }
    }

    /// The pool's transfer of `amount` of the other token, out of its vault to the user.
    pub open spec fn payout_transfer(self, args: SwapArgs, amount: u64) -> TransferPlan {
        let side = Side::of(args.is_x).other();
        TransferPlan {
            from: TokenAccount::Vault(side),
            to: TokenAccount::Owner(side),
            mint: side,
            authority: Authority::Pool(self.pool_seeds()),
            amount,
            decimals: self.mint_of(side).decimals,
        }
    }

    /// What the swap does once the curve has answered `quote`.
    pub open spec fn outcome(self, args: SwapArgs, quote: Result<SwapQuote, AmmError>) -> Result<
        SwapPlan,
        AmmError,
    > {
        match quote {
            Err(e) => Err(e),
            Ok(q) => if q.deposit == 0 || q.withdraw == 0 {
                Err(AmmError::InvalidAmount)
            } else {
                Ok(
                    SwapPlan {
                        deposit: self.deposit_transfer(args, q.deposit),
                        withdraw: self.payout_transfer(args, q.withdraw),
                        event: Swapped {
                            config: self.config_key,
                            user: self.user,
                            is_x: args.is_x,
                            amount_in: q.deposit,
                            amount_out: q.withdraw,
                        },
                    },
                )
            },
        }
    }

    /// The question put to the curve for `args`.
    pub fn curve_query(&self, args: &SwapArgs) -> (r: SwapQuery)
        ensures
            r == self.query(*args),
            r.x == self.vault_x,
            r.y == self.vault_y,
            r.l == self.lp_supply,
            r.fee == self.config.fee,
            r.amount == args.amount,
            r.min == args.min,
            r.pair == (if args.is_x { LiquidityPair::X } else { LiquidityPair::Y }),
    {
        SwapQuery {
            x: self.vault_x,
            y: self.vault_y,
            l: self.lp_supply,
            fee: self.config.fee,
            pair: if args.is_x {
                LiquidityPair::X
            } else {
                LiquidityPair::Y
            },
            amount: args.amount,
            min: args.min,
        }
    }

    /// Swaps `args.amount` of one token for the other. A zero amount or a locked
    /// pool is refused before the curve is asked; otherwise `quote` is asked once,
    /// with the pool's balances, and its answer decides the rest.
    pub fn swap<F>(&self, args: &SwapArgs, quote: F) -> (r: Result<SwapPlan, AmmError>) where
        F: Fn(SwapQuery) -> Result<SwapQuote, AmmError>,

        requires
            call_requires(quote, (self.query(*args),)),
        ensures
            self.refusal(*args) matches Some(e) ==> r == Err::<SwapPlan, AmmError>(e),
            self.refusal(*args) is None ==> exists|q: Result<SwapQuote, AmmError>|
                #[trigger] call_ensures(quote, (self.query(*args),), q) && r == self.outcome(
                    *args,
                    q,
                ),
    {
        if args.amount == 0 {
            return Err(AmmError::InvalidAmount);
        }
        if self.config.locked {
            return Err(AmmError::AMMLocked);
        }
        let query = self.curve_query(args);
        let answer = quote(query);
        self.settle(args, answer)
    }

    /// What the swap does with the curve's answer: a curve error is passed on, a
    /// zero deposit or payment is refused, and otherwise the user pays in and the
    /// pool pays out.
    pub fn settle(&self, args: &SwapArgs, quote: Result<SwapQuote, AmmError>) -> (r: Result<
        SwapPlan,
        AmmError,
    >)
        ensures
            r == self.outcome(*args, quote),
    {
        let res = match quote {
            Ok(q) => q,
            Err(e) => {
                return Err(e);
            },
        };
        if res.deposit == 0 {
            return Err(AmmError::InvalidAmount);
        }
        if res.withdraw == 0 {
            return Err(AmmError::InvalidAmount);
        }
        let deposit = self.transfer_to_vault(args, res.deposit);
        let withdraw = self.withdraw_from_vault(args, res.withdraw);
        let event = Swapped {
            config: self.config_key,
            user: self.user,
            is_x: args.is_x,
            amount_in: res.deposit,
            amount_out: res.withdraw,
        };
        Ok(SwapPlan { deposit, withdraw, event })
    }

    /// The user's transfer of `amount` into the vault of the token that goes in.
    pub fn transfer_to_vault(&self, args: &SwapArgs, amount: u64) -> (r: TransferPlan)
        ensures
            r == self.deposit_transfer(*args, amount),
    {
        let side = Side::from_is_x(args.is_x);
        let decimals = if args.is_x {
            self.mint_x.decimals
        } else {
            self.mint_y.decimals
        };
        TransferPlan {
            from: TokenAccount::Owner(side),
            to: TokenAccount::Vault(side),
            mint: side,
            authority: Authority::Owner,
            amount,
            decimals,
        }
    }

    /// The pool's transfer of `amount` of the other token to the user, signed with
    /// the seeds of the pool's configuration.
    pub fn withdraw_from_vault(&self, args: &SwapArgs, amount: u64) -> (r: TransferPlan)
        ensures
            r == self.payout_transfer(*args, amount),
    {
        let side = Side::from_is_x(args.is_x).opposite();
        let decimals = if args.is_x {
            self.mint_y.decimals
        } else {
            self.mint_x.decimals
        };
        let seeds = PoolSeeds {
            mint_x: self.mint_x.key,
            mint_y: self.mint_y.key,
            seed: self.config.seed,
            bump: self.config.config_bump,
        };
        TransferPlan {
            from: TokenAccount::Vault(side),
            to: TokenAccount::Owner(side),
            mint: side,
            authority: Authority::Pool(seeds),
            amount,
            decimals,
        }
    }
}

} // verus!

use vstd::prelude::*;

use crate::address::Address;
use crate::error::AmmError;
use crate::events::LiquidityRemoved;
use crate::plan::{Authority, BurnPlan, MintInfo, Side, TokenAccount, TransferPlan};
use crate::seeds::PoolSeeds;
use crate::state::Config;

verus! {

/// The decimals of the pool's liquidity token, with which the curve computes a withdrawal.
pub const LP_DECIMALS: u8 = 6;

/// What the constant-product curve is asked for a withdrawal: the amounts of X and
/// Y that `a` liquidity tokens are worth, out of balances `x` and `y` and a supply
/// of `l`, computed with `precision` decimals.
#[derive(Debug, Clone, Copy, PartialEq, Eq)]
pub struct WithdrawQuery {
    pub x: u64,
    pub y: u64,
    pub l: u64,
    pub a: u64,
    pub precision: u8,
}

/// What the curve answers to a withdrawal: the amounts of X and of Y to pay out.
#[derive(Debug, Clone, Copy, PartialEq, Eq)]
pub struct XYAmounts {
    pub x: u64,
    pub y: u64,
}

/// The accounts of a withdrawal, by what the withdrawal reads of them.
#[derive(Debug, Clone, Copy, PartialEq, Eq)]
pub struct Withdraw {
    pub lp_provider: Address,
    pub config_key: Address,
    pub config: Config,
    pub lp_supply: u64,
    pub mint_x: MintInfo,
    pub mint_y: MintInfo,
    pub vault_x: u64,
    pub vault_y: u64,
}

/// What an accepted withdrawal does, in order: pay out X, pay out Y, burn the
/// liquidity tokens, announce.
#[derive(Debug, Clone, Copy, PartialEq, Eq)]
pub struct WithdrawPlan {
    pub transfer_x: TransferPlan,
    pub transfer_y: TransferPlan,
    pub burn: BurnPlan,
    pub event: LiquidityRemoved,
}

impl Withdraw {
    /// The error with which a withdrawal is refused before the curve is consulted, if any.
    pub open spec fn refusal(self, lp_amount: u64) -> Option<AmmError> {
        if lp_amount == 0 {
            Some(AmmError::InvalidAmount)
        } else if self.config.locked {
            Some(AmmError::AMMLocked)
        } else {
            None
        }
    }

    /// The question put to the curve for burning `lp_amount`.
    pub open spec fn query(self, lp_amount: u64) -> WithdrawQuery {
        WithdrawQuery {
            x: self.vault_x,
            y: self.vault_y,
            l: self.lp_supply,
            a: lp_amount,
            precision: LP_DECIMALS,
        }
    }

    /// The seeds with which the pool signs for its vaults.
    pub open spec fn pool_seeds(self) -> PoolSeeds {
        PoolSeeds {
            mint_x: self.mint_x.key,
            mint_y: self.mint_y.key,
            seed: self.config.seed,
            bump: self.config.config_bump,
        }
    }

    /// The pool's transfer of `amount` of one token, out of its vault to the provider.
    pub open spec fn payout(self, side: Side, amount: u64) -> TransferPlan {
        TransferPlan {
            from: TokenAccount::Vault(side),
            to: TokenAccount::Owner(side),
            mint: side,
            authority: Authority::Pool(self.pool_seeds()),
            amount,
            decimals: match side {
                Side::X => self.mint_x.decimals,
                Side::Y => self.mint_y.decimals,
            },
        }
    }

    /// The provider's burn of `amount` liquidity tokens.
    pub open spec fn burn_of(amount: u64) -> BurnPlan {
        BurnPlan { from: TokenAccount::OwnerLp, authority: Authority::Owner, amount }
    }

    /// What the withdrawal does once the curve has answered `amounts`.
    pub open spec fn outcome(
        self,
        lp_amount: u64,
        min_x: u64,
        min_y: u64,
        amounts: Result<XYAmounts, AmmError>,
    ) -> Result<WithdrawPlan, AmmError> {
        match amounts {
            Err(e) => Err(e),
            Ok(a) => if min_x > a.x {
                Err(AmmError::InsufficientTokenX)
            } else if min_y > a.y {
                Err(AmmError::InsufficientTokenY)
            } else {
                Ok(
                    WithdrawPlan {
                        transfer_x: self.payout(Side::X, a.x),
                        transfer_y: self.payout(Side::Y, a.y),
                        burn: Self::burn_of(lp_amount),
                        event: LiquidityRemoved {
                            config: self.config_key,
                            lp_provider: self.lp_provider,
                            amount_x: a.x,
                            amount_y: a.y,
                            lp_burned: lp_amount,
                        },
                    },
                )
            },
        }
    }

    /// The question put to the curve for burning `lp_amount`.
    pub fn curve_query(&self, lp_amount: u64) -> (r: WithdrawQuery)
        ensures
            r == self.query(lp_amount),
            r.x == self.vault_x,
            r.y == self.vault_y,
            r.l == self.lp_supply,
            r.a == lp_amount,
            r.precision == 6,
    {
        WithdrawQuery {
            x: self.vault_x,
            y: self.vault_y,
            l: self.lp_supply,
            a: lp_amount,
            precision: LP_DECIMALS,
        }
    }

    /// Burns `lp_amount` liquidity tokens for the share of both vaults they are
    /// worth. A zero amount or a locked pool is refused before the curve is asked;
    /// otherwise `amounts` is asked once, with the pool's balances, and its answer
    /// decides the rest.
    pub fn withdraw<F>(&self, lp_amount: u64, min_x: u64, min_y: u64, amounts: F) -> (r: Result<
        WithdrawPlan,
        AmmError,
    >) where F: Fn(WithdrawQuery) -> Result<XYAmounts, AmmError>
        requires
            call_requires(amounts, (self.query(lp_amount),)),
        ensures
            self.refusal(lp_amount) matches Some(e) ==> r == Err::<WithdrawPlan, AmmError>(e),
            self.refusal(lp_amount) is None ==> exists|a: Result<XYAmounts, AmmError>|
                #[trigger] call_ensures(amounts, (self.query(lp_amount),), a) && r == self.outcome(
                    lp_amount,
                    min_x,
                    min_y,
                    a,
                ),
    {
        if lp_amount == 0 {
            return Err(AmmError::InvalidAmount);
        }
        if self.config.locked {
            return Err(AmmError::AMMLocked);
        }
        let query = self.curve_query(lp_amount);
        let answer = amounts(query);
        self.settle(lp_amount, min_x, min_y, answer)
    }

    /// What the withdrawal does with the curve's answer: a curve error is passed
    /// on, an answer under either minimum is refused, and otherwise both tokens are
    /// paid out and the liquidity tokens burnt.
    pub fn settle(&self, lp_amount: u64, min_x: u64, min_y: u64, amounts: Result<XYAmounts, AmmError>) -> (r: Result<
        WithdrawPlan,
        AmmError,
    >)
        ensures
            r == self.outcome(lp_amount, min_x, min_y, amounts),
    {
        let a = match amounts {
            Ok(a) => a,
            Err(e) => {
                return Err(e);
            },
        };
        if !(min_x <= a.x) {
            return Err(AmmError::InsufficientTokenX);
        }
        if !(min_y <= a.y) {
            return Err(AmmError::InsufficientTokenY);
        }
        let transfer_x = self.withdraw_tokens(true, a.x);
        let transfer_y = self.withdraw_tokens(false, a.y);
        let burn = self.burn_lp_tokens(lp_amount);
        let event = LiquidityRemoved {
            config: self.config_key,
            lp_provider: self.lp_provider,
            amount_x: a.x,
            amount_y: a.y,
            lp_burned: lp_amount,
        };
        Ok(WithdrawPlan { transfer_x, transfer_y, burn, event })
    }

    /// The pool's transfer of `amount` of X (when `is_x`) or of Y out of its vault
    /// to the provider, signed with the seeds of the pool's configuration.
    pub fn withdraw_tokens(&self, is_x: bool, amount: u64) -> (r: TransferPlan)
        ensures
            r == self.payout(Side::of(is_x), amount),
    {
        let side = Side::from_is_x(is_x);
        let decimals = if is_x {
            self.mint_x.decimals
        } else {
            self.mint_y.decimals
        };
        let seeds = PoolSeeds {
            mint_x: self.mint_x.key,
            mint_y: self.mint_y.key,
            seed: self.config.seed,
            bump: self.config.config_bump,
        };
        TransferPlan {
            from: TokenAccount::Vault(side),
            to: TokenAccount::Owner(side),
            mint: side,
            authority: Authority::Pool(seeds),
            amount,
            decimals,
        }
    }

    /// The provider's burn of `amount` liquidity tokens from their own account.
    pub fn burn_lp_tokens(&self, amount: u64) -> (r: BurnPlan)
        ensures
            r == Self::burn_of(amount),
    {
        BurnPlan { from: TokenAccount::OwnerLp, authority: Authority::Owner, amount }
    }
}

} // verus!

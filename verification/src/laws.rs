use vstd::prelude::*;

use vstd::bytes::{
    lemma_auto_spec_u64_to_from_le_bytes, spec_u64_from_le_bytes, spec_u64_to_le_bytes,
    spec_u64_to_le_bytes_open, spec_u64_to_le_bytes_to_open,
};

use crate::address::Address;
use crate::contexts::init::{Initialize, InitializeBumps};
use crate::contexts::lock_pool::LockPool;
use crate::contexts::swap::{LiquidityPair, Swap, SwapArgs, SwapPlan, SwapQuote};
use crate::contexts::withdraw::{Withdraw, WithdrawPlan, XYAmounts};
use crate::error::AmmError;
use crate::events::{LiquidityRemoved, Swapped};
use crate::plan::{Authority, BurnPlan, Side, TokenAccount, TransferPlan};
use crate::seeds::PoolSeeds;
use crate::state::Config;

verus! {

/// A locked pool refuses every swap of a positive amount, whatever the curve would answer.
pub proof fn lemma_locked_pool_refuses_swaps(c: Config, s: Swap, args: SwapArgs)
    requires
        s.config == c.with_locked(true),
        args.amount > 0,
    ensures
        s.refusal(args) == Some(AmmError::AMMLocked),
{
}

/// A locked pool refuses every withdrawal of a positive amount, whatever the curve would answer.
pub proof fn lemma_locked_pool_refuses_withdrawals(c: Config, w: Withdraw, lp_amount: u64)
    requires
        w.config == c.with_locked(true),
        lp_amount > 0,
    ensures
        w.refusal(lp_amount) == Some(AmmError::AMMLocked),
{
}

/// An unlocked pool hands every swap of a positive amount to the curve.
pub proof fn lemma_unlocked_pool_consults_curve(c: Config, s: Swap, args: SwapArgs, w: Withdraw, lp_amount: u64)
    requires
        s.config == c.with_locked(false),
        w.config == c.with_locked(false),
        args.amount > 0,
        lp_amount > 0,
    ensures
        s.refusal(args) is None,
        w.refusal(lp_amount) is None,
{
}

/// A pool just created is unlocked: it hands swaps and withdrawals of positive
/// amounts to the curve.
pub proof fn lemma_new_pool_is_open(
    i: Initialize,
    seed: u64,
    fee: u16,
    authority: Option<Address>,
    bumps: InitializeBumps,
    s: Swap,
    args: SwapArgs,
    w: Withdraw,
    lp_amount: u64,
)
    requires
        s.config == i.new_config(seed, fee, authority, bumps),
        w.config == i.new_config(seed, fee, authority, bumps),
        args.amount > 0,
        lp_amount > 0,
    ensures
        s.refusal(args) is None,
        w.refusal(lp_amount) is None,
{
}

/// An accepted swap takes a positive amount of the token that goes in from the
/// user into that token's vault, on the user's authority, and pays a positive
/// amount of the other token out of its vault to the user, on the pool's
/// authority; the announcement reports both amounts.
pub proof fn lemma_swap_moves_tokens_both_ways(s: Swap, args: SwapArgs, quote: Result<SwapQuote, AmmError>)
    requires
        s.outcome(args, quote) is Ok,
    ensures
        ({
            let plan = s.outcome(args, quote)->Ok_0;
            let side = Side::of(args.is_x);
            &&& quote is Ok
            &&& plan.deposit.mint == side
            &&& plan.deposit.from == TokenAccount::Owner(side)
            &&& plan.deposit.to == TokenAccount::Vault(side)
            &&& plan.deposit.authority == Authority::Owner
            &&& plan.deposit.amount > 0
            &&& plan.withdraw.mint == side.other()
            &&& plan.withdraw.mint != plan.deposit.mint
            &&& plan.withdraw.from == TokenAccount::Vault(side.other())
            &&& plan.withdraw.to == TokenAccount::Owner(side.other())
            &&& plan.withdraw.authority == Authority::Pool(s.pool_seeds())
            &&& plan.withdraw.amount > 0
            &&& plan.deposit.amount == quote->Ok_0.deposit
            &&& plan.withdraw.amount == quote->Ok_0.withdraw
            &&& plan.event.amount_in == plan.deposit.amount
            &&& plan.event.amount_out == plan.withdraw.amount
            &&& plan.event.is_x == args.is_x
        }),
{
}

/// A swap that the curve answers with nothing to deposit or nothing to pay out
/// is refused, and no token moves.
pub proof fn lemma_empty_swap_refused(s: Swap, args: SwapArgs, q: SwapQuote)
    requires
        q.deposit == 0 || q.withdraw == 0,
    ensures
        s.outcome(args, Ok(q)) == Err::<crate::contexts::swap::SwapPlan, AmmError>(
            AmmError::InvalidAmount,
        ),
{
}

/// An accepted withdrawal pays out at least the provider's minimum of each token,
/// both out of the pool's vaults on the pool's authority, and burns exactly the
/// liquidity tokens offered, on the provider's authority.
pub proof fn lemma_withdraw_respects_minimums(
    w: Withdraw,
    lp_amount: u64,
    min_x: u64,
    min_y: u64,
    amounts: Result<XYAmounts, AmmError>,
)
    requires
        w.outcome(lp_amount, min_x, min_y, amounts) is Ok,
    ensures
        ({
            let plan = w.outcome(lp_amount, min_x, min_y, amounts)->Ok_0;
            &&& amounts is Ok
            &&& min_x <= plan.transfer_x.amount
            &&& min_y <= plan.transfer_y.amount
            &&& plan.transfer_x.amount == amounts->Ok_0.x
            &&& plan.transfer_y.amount == amounts->Ok_0.y
            &&& plan.transfer_x.from == TokenAccount::Vault(Side::X)
            &&& plan.transfer_y.from == TokenAccount::Vault(Side::Y)
            &&& plan.transfer_x.authority == Authority::Pool(w.pool_seeds())
            &&& plan.transfer_y.authority == Authority::Pool(w.pool_seeds())
            &&& plan.burn.amount == lp_amount
            &&& plan.burn.from == TokenAccount::OwnerLp
            &&& plan.burn.authority == Authority::Owner
            &&& plan.event.lp_burned == lp_amount
        }),
{
}

/// A withdrawal whose curve answer falls short of a minimum is refused: short of
/// X first, then short of Y.
pub proof fn lemma_withdraw_short_refused(w: Withdraw, lp_amount: u64, min_x: u64, min_y: u64, a: XYAmounts)
    ensures
        a.x < min_x ==> w.outcome(lp_amount, min_x, min_y, Ok(a)) == Err::<
            crate::contexts::withdraw::WithdrawPlan,
            AmmError,
        >(AmmError::InsufficientTokenX),
        min_x <= a.x && a.y < min_y ==> w.outcome(lp_amount, min_x, min_y, Ok(a)) == Err::<
            crate::contexts::withdraw::WithdrawPlan,
            AmmError,
        >(AmmError::InsufficientTokenY),
{
}

/// A pool signs for its vaults the same way in a swap and in a withdrawal.
pub proof fn lemma_pool_signs_alike(s: Swap, w: Withdraw)
    requires
        s.config == w.config,
        s.mint_x.key == w.mint_x.key,
        s.mint_y.key == w.mint_y.key,
    ensures
        s.pool_seeds() == w.pool_seeds(),
{
}

/// The curve is asked about a swap with the pool's own balances, X as `x` and Y
/// as `y`, its liquidity supply and its fee, whichever token goes in; only the
/// pair names the token that goes in, and the amount and minimum are the user's.
pub proof fn lemma_swap_query_reads_the_pool(s: Swap, args: SwapArgs)
    ensures
        s.query(args).x == s.vault_x,
        s.query(args).y == s.vault_y,
        s.query(args).l == s.lp_supply,
        s.query(args).fee == s.config.fee,
        s.query(args).amount == args.amount,
        s.query(args).min == args.min,
        args.is_x ==> s.query(args).pair == LiquidityPair::X,
        !args.is_x ==> s.query(args).pair == LiquidityPair::Y,
{
}

/// The curve is asked about a withdrawal with the pool's own balances, X as `x`
/// and Y as `y`, its liquidity supply, the liquidity offered and six decimals.
pub proof fn lemma_withdraw_query_reads_the_pool(w: Withdraw, lp_amount: u64)
    ensures
        w.query(lp_amount).x == w.vault_x,
        w.query(lp_amount).y == w.vault_y,
        w.query(lp_amount).l == w.lp_supply,
        w.query(lp_amount).a == lp_amount,
        w.query(lp_amount).precision == 6,
{
}

/// A pool is created with exactly the arguments given: its seed, fee and
/// authority (none included), the mints of the accounts, the bumps found, unlocked.
pub proof fn lemma_new_config_records_arguments(
    i: Initialize,
    seed: u64,
    fee: u16,
    authority: Option<Address>,
    bumps: InitializeBumps,
)
    ensures
        i.new_config(seed, fee, authority, bumps).seed == seed,
        i.new_config(seed, fee, authority, bumps).authority == authority,
        i.new_config(seed, fee, authority, bumps).mint_x == i.mint_x,
        i.new_config(seed, fee, authority, bumps).mint_y == i.mint_y,
        i.new_config(seed, fee, authority, bumps).fee == fee,
        !i.new_config(seed, fee, authority, bumps).locked,
        i.new_config(seed, fee, authority, bumps).config_bump == bumps.config,
        i.new_config(seed, fee, authority, bumps).lp_bump == bumps.mint_lp,
{
}

/// The pool's signer seeds are the bytes of `config`, the bytes of mint X, the
/// bytes of mint Y, the seed in little-endian bytes (which decode back to the
/// seed) and the one byte of the bump, whatever their values.
pub proof fn lemma_seed_parts_spell_the_address(p: PoolSeeds)
    ensures
        p.seed_parts().len() == 5,
        p.seed_parts()[0] == seq![99u8, 111u8, 110u8, 102u8, 105u8, 103u8],
        p.seed_parts()[1] == p.mint_x.0@,
        p.seed_parts()[2] == p.mint_y.0@,
        p.seed_parts()[3] == spec_u64_to_le_bytes(p.seed),
        p.seed_parts()[3] == spec_u64_to_le_bytes_open(p.seed),
        p.seed_parts()[3].len() == 8,
        spec_u64_from_le_bytes(p.seed_parts()[3]) == p.seed,
        p.seed_parts()[4] == seq![p.bump],
        p.seed_parts()[4].len() == 1,
        p.seed_parts()[4][0] == p.bump,
{
    spec_u64_to_le_bytes_to_open(p.seed);
    lemma_auto_spec_u64_to_from_le_bytes();
    assert(spec_u64_to_le_bytes(p.seed).len() == 8);
}

/// The signer may lock and unlock exactly when the configuration records it as
/// the authority; no other field of the configuration matters.
pub proof fn lemma_authorized_iff_recorded_authority(p: LockPool, q: LockPool)
    ensures
        p.authorized() <==> p.config.authority == Some(p.authority),
        p.authority == q.authority && p.config.authority == q.config.authority ==> (
        p.authorized() <==> q.authorized()),
{
}

/// Changing the lock flag sets it and keeps every other field.
pub proof fn lemma_with_locked_changes_only_the_flag(c: Config, locked: bool)
    ensures
        c.with_locked(locked).locked == locked,
        c.with_locked(locked).seed == c.seed,
        c.with_locked(locked).authority == c.authority,
        c.with_locked(locked).mint_x == c.mint_x,
        c.with_locked(locked).mint_y == c.mint_y,
        c.with_locked(locked).fee == c.fee,
        c.with_locked(locked).config_bump == c.config_bump,
        c.with_locked(locked).lp_bump == c.lp_bump,
{
}

/// `is_x` names X and the other of X is Y, and the other way round.
pub proof fn lemma_sides()
    ensures
        Side::of(true) == Side::X,
        Side::of(false) == Side::Y,
        Side::X.other() == Side::Y,
        Side::Y.other() == Side::X,
{
}

/// A swap is refused before the curve exactly when its amount is zero (invalid
/// amount) or, with a positive amount, the pool is locked.
pub proof fn lemma_swap_refusal(s: Swap, args: SwapArgs)
    ensures
        s.refusal(args) == Some(AmmError::InvalidAmount) <==> args.amount == 0,
        s.refusal(args) == Some(AmmError::AMMLocked) <==> args.amount != 0 && s.config.locked,
        s.refusal(args) is None <==> args.amount != 0 && !s.config.locked,
{
}

/// A withdrawal is refused before the curve exactly when its amount is zero
/// (invalid amount) or, with a positive amount, the pool is locked.
pub proof fn lemma_withdraw_refusal(w: Withdraw, lp_amount: u64)
    ensures
        w.refusal(lp_amount) == Some(AmmError::InvalidAmount) <==> lp_amount == 0,
        w.refusal(lp_amount) == Some(AmmError::AMMLocked) <==> lp_amount != 0 && w.config.locked,
        w.refusal(lp_amount) is None <==> lp_amount != 0 && !w.config.locked,
{
}

/// The pool signs with its mints' keys, its seed and its configuration bump.
pub proof fn lemma_pool_seeds_of_the_pool(s: Swap, w: Withdraw)
    ensures
        s.pool_seeds() == (PoolSeeds {
            mint_x: s.mint_x.key,
            mint_y: s.mint_y.key,
            seed: s.config.seed,
            bump: s.config.config_bump,
        }),
        w.pool_seeds() == (PoolSeeds {
            mint_x: w.mint_x.key,
            mint_y: w.mint_y.key,
            seed: w.config.seed,
            bump: w.config.config_bump,
        }),
{
}

/// The swap's two transfers, spelt out for each direction: X in and Y out when
/// `is_x`, Y in and X out otherwise; each with its own mint's decimals.
pub proof fn lemma_swap_transfers(s: Swap, args: SwapArgs, amount_in: u64, amount_out: u64)
    ensures
        args.is_x ==> s.deposit_transfer(args, amount_in) == (TransferPlan {
            from: TokenAccount::Owner(Side::X),
            to: TokenAccount::Vault(Side::X),
            mint: Side::X,
            authority: Authority::Owner,
            amount: amount_in,
            decimals: s.mint_x.decimals,
        }),
        !args.is_x ==> s.deposit_transfer(args, amount_in) == (TransferPlan {
            from: TokenAccount::Owner(Side::Y),
            to: TokenAccount::Vault(Side::Y),
            mint: Side::Y,
            authority: Authority::Owner,
            amount: amount_in,
            decimals: s.mint_y.decimals,
        }),
        args.is_x ==> s.payout_transfer(args, amount_out) == (TransferPlan {
            from: TokenAccount::Vault(Side::Y),
            to: TokenAccount::Owner(Side::Y),
            mint: Side::Y,
            authority: Authority::Pool(
                PoolSeeds {
                    mint_x: s.mint_x.key,
                    mint_y: s.mint_y.key,
                    seed: s.config.seed,
                    bump: s.config.config_bump,
                },
            ),
            amount: amount_out,
            decimals: s.mint_y.decimals,
        }),
        !args.is_x ==> s.payout_transfer(args, amount_out) == (TransferPlan {
            from: TokenAccount::Vault(Side::X),
            to: TokenAccount::Owner(Side::X),
            mint: Side::X,
            authority: Authority::Pool(
                PoolSeeds {
                    mint_x: s.mint_x.key,
                    mint_y: s.mint_y.key,
                    seed: s.config.seed,
                    bump: s.config.config_bump,
                },
            ),
            amount: amount_out,
            decimals: s.mint_x.decimals,
        }),
{
}

/// What a swap does with each answer of the curve: an error is passed on
/// unchanged, an answer with nothing to deposit or nothing to pay is an invalid
/// amount, and any other answer deposits and pays exactly the answered amounts
/// and announces the pool, the user, the direction and both amounts.
pub proof fn lemma_swap_outcome(s: Swap, args: SwapArgs, quote: Result<SwapQuote, AmmError>)
    ensures
        quote matches Err(e) ==> s.outcome(args, quote) == Err::<SwapPlan, AmmError>(e),
        quote matches Ok(q) ==> (q.deposit == 0 || q.withdraw == 0 <==> s.outcome(args, quote)
            is Err),
        quote matches Ok(q) ==> (q.deposit == 0 || q.withdraw == 0) ==> s.outcome(args, quote)
            == Err::<SwapPlan, AmmError>(AmmError::InvalidAmount),
        quote matches Ok(q) ==> (q.deposit != 0 && q.withdraw != 0) ==> s.outcome(args, quote)
            == Ok::<SwapPlan, AmmError>(
            SwapPlan {
                deposit: s.deposit_transfer(args, q.deposit),
                withdraw: s.payout_transfer(args, q.withdraw),
                event: Swapped {
                    config: s.config_key,
                    user: s.user,
                    is_x: args.is_x,
                    amount_in: q.deposit,
                    amount_out: q.withdraw,
                },
            },
        ),
{
}

/// The withdrawal's payments and burn, spelt out: each token out of its own
/// vault to the provider, with its own mint's decimals, on the pool's signature;
/// the burn from the provider's liquidity account, on the provider's signature.
pub proof fn lemma_withdraw_transfers(w: Withdraw, side: Side, amount: u64)
    ensures
        side == Side::X ==> w.payout(side, amount) == (TransferPlan {
            from: TokenAccount::Vault(Side::X),
            to: TokenAccount::Owner(Side::X),
            mint: Side::X,
            authority: Authority::Pool(
                PoolSeeds {
                    mint_x: w.mint_x.key,
                    mint_y: w.mint_y.key,
                    seed: w.config.seed,
                    bump: w.config.config_bump,
                },
            ),
            amount,
            decimals: w.mint_x.decimals,
        }),
        side == Side::Y ==> w.payout(side, amount) == (TransferPlan {
            from: TokenAccount::Vault(Side::Y),
            to: TokenAccount::Owner(Side::Y),
            mint: Side::Y,
            authority: Authority::Pool(
                PoolSeeds {
                    mint_x: w.mint_x.key,
                    mint_y: w.mint_y.key,
                    seed: w.config.seed,
                    bump: w.config.config_bump,
                },
            ),
            amount,
            decimals: w.mint_y.decimals,
        }),
        Withdraw::burn_of(amount) == (BurnPlan {
            from: TokenAccount::OwnerLp,
            authority: Authority::Owner,
            amount,
        }),
{
}

/// What a withdrawal does with each answer of the curve: an error is passed on
/// unchanged, an answer short of the X minimum is refused as such, then one short
/// of the Y minimum, and any other answer pays exactly the answered amounts,
/// burns exactly the liquidity offered and announces them.
pub proof fn lemma_withdraw_outcome(
    w: Withdraw,
    lp_amount: u64,
    min_x: u64,
    min_y: u64,
    amounts: Result<XYAmounts, AmmError>,
)
    ensures
        amounts matches Err(e) ==> w.outcome(lp_amount, min_x, min_y, amounts) == Err::<
            WithdrawPlan,
            AmmError,
        >(e),
        amounts matches Ok(a) ==> (w.outcome(lp_amount, min_x, min_y, amounts) is Ok <==> min_x
            <= a.x && min_y <= a.y),
        amounts matches Ok(a) ==> (min_x <= a.x && min_y <= a.y) ==> w.outcome(
            lp_amount,
            min_x,
            min_y,
            amounts,
        ) == Ok::<WithdrawPlan, AmmError>(
            WithdrawPlan {
                transfer_x: w.payout(Side::X, a.x),
                transfer_y: w.payout(Side::Y, a.y),
                burn: Withdraw::burn_of(lp_amount),
                event: LiquidityRemoved {
                    config: w.config_key,
                    lp_provider: w.lp_provider,
                    amount_x: a.x,
                    amount_y: a.y,
                    lp_burned: lp_amount,
                },
            },
        ),
{
}

/// An address's bytes are its 32 bytes, in order.
pub proof fn lemma_address_bytes(a: Address)
    ensures
        a.bytes().len() == 32,
        forall|i: int| 0 <= i < 32 ==> #[trigger] a.bytes()[i] == a.0[i],
{
}

} // verus!

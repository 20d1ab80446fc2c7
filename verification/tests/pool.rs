use amm_program::address::{same_address, Address};
use amm_program::error::AmmError;
use amm_program::events::{LiquidityRemoved, PoolInitialized, Swapped};
use amm_program::plan::{Authority, BurnPlan, MintInfo, Side, TokenAccount, TransferPlan};
use amm_program::seeds::PoolSeeds;
use amm_program::state::Config;
use amm_program::{
    Initialize, InitializeBumps, LiquidityPair, LockPool, Swap, SwapArgs, SwapQuery, SwapQuote,
    Withdraw, WithdrawQuery, XYAmounts, LP_DECIMALS,
};

fn addr(b: u8) -> Address {
    Address([b; 32])
}

fn config(locked: bool) -> Config {
    Config {
        seed: 0x0102030405060708,
        authority: Some(addr(9)),
        mint_x: addr(1),
        mint_y: addr(2),
        fee: 30,
        locked,
        config_bump: 254,
        lp_bump: 253,
    }
}

fn swap_accounts(locked: bool) -> Swap {
    Swap {
        user: addr(7),
        config_key: addr(5),
        config: config(locked),
        lp_supply: 1_000,
        mint_x: MintInfo { key: addr(1), decimals: 6 },
        mint_y: MintInfo { key: addr(2), decimals: 9 },
        vault_x: 10_000,
        vault_y: 20_000,
    }
}

fn withdraw_accounts(locked: bool) -> Withdraw {
    Withdraw {
        lp_provider: addr(8),
        config_key: addr(5),
        config: config(locked),
        lp_supply: 1_000,
        mint_x: MintInfo { key: addr(1), decimals: 6 },
        mint_y: MintInfo { key: addr(2), decimals: 9 },
        vault_x: 10_000,
        vault_y: 20_000,
    }
}

fn pool_seeds() -> PoolSeeds {
    PoolSeeds { mint_x: addr(1), mint_y: addr(2), seed: 0x0102030405060708, bump: 254 }
}

#[test]
fn same_address_compares_bytes() {
    assert!(same_address(&addr(3), &addr(3)));
    let mut other = [3u8; 32];
    other[31] = 4;
    assert!(!same_address(&addr(3), &Address(other)));
    assert_eq!(addr(3).to_bytes(), [3u8; 32]);
}

#[test]
fn seed_parts_are_config_mints_seed_and_bump() {
    let parts = pool_seeds().to_seed_parts();
    assert_eq!(parts.len(), 5);
    assert_eq!(parts[0], b"config".to_vec());
    assert_eq!(parts[1], vec![1u8; 32]);
    assert_eq!(parts[2], vec![2u8; 32]);
    assert_eq!(parts[3], 0x0102030405060708u64.to_le_bytes().to_vec());
    assert_eq!(parts[3], vec![8, 7, 6, 5, 4, 3, 2, 1]);
    assert_eq!(parts[4], vec![254]);
}

#[test]
fn different_seeds_give_different_parts() {
    let a = pool_seeds();
    let b = PoolSeeds { seed: 0x0102030405060709, ..a };
    assert_ne!(a.to_seed_parts(), b.to_seed_parts());
    let c = PoolSeeds { bump: 253, ..a };
    assert_ne!(a.to_seed_parts(), c.to_seed_parts());
}

#[test]
fn init_writes_an_unlocked_config() {
    let accounts = Initialize {
        initializer: addr(7),
        mint_x: addr(1),
        mint_y: addr(2),
        mint_lp: addr(6),
        config: addr(5),
    };
    let setup = accounts.init(42, 30, Some(addr(9)), &InitializeBumps { config: 250, mint_lp: 251 });
    assert_eq!(
        setup.config,
        Config {
            seed: 42,
            authority: Some(addr(9)),
            mint_x: addr(1),
            mint_y: addr(2),
            fee: 30,
            locked: false,
            config_bump: 250,
            lp_bump: 251,
        }
    );
    assert_eq!(
        setup.event,
        PoolInitialized { config: addr(5), mint_x: addr(1), mint_y: addr(2), fee: 30 }
    );
}

#[test]
fn new_pool_accepts_a_swap() {
    let accounts = Initialize {
        initializer: addr(7),
        mint_x: addr(1),
        mint_y: addr(2),
        mint_lp: addr(6),
        config: addr(5),
    };
    let setup = accounts.init(7, 30, None, &InitializeBumps { config: 250, mint_lp: 251 });
    let s = Swap { config: setup.config, ..swap_accounts(false) };
    let r = s.swap(&SwapArgs { is_x: true, amount: 10, min: 1 }, |_q| {
        Ok(SwapQuote { deposit: 10, withdraw: 19, fee: 0 })
    });
    assert!(r.is_ok());
}

#[test]
fn lock_and_unlock_by_authority() {
    let mut p = LockPool { authority: addr(9), config: config(false) };
    assert_eq!(p.authorize(), Ok(()));
    assert_eq!(p.lock(), Ok(()));
    assert_eq!(p.config, Config { locked: true, ..config(false) });
    assert_eq!(p.lock(), Ok(()));
    assert_eq!(p.config, Config { locked: true, ..config(false) });
    assert_eq!(p.unlock(), Ok(()));
    assert_eq!(p.config, config(false));
}

#[test]
fn lock_by_stranger_is_refused() {
    let mut p = LockPool { authority: addr(8), config: config(false) };
    assert_eq!(p.lock(), Err(AmmError::InvalidConfig));
    assert_eq!(p.config, config(false));
    let mut q = LockPool { authority: addr(8), config: config(true) };
    assert_eq!(q.unlock(), Err(AmmError::InvalidConfig));
    assert_eq!(q.config, config(true));
}

#[test]
fn pool_without_authority_cannot_be_locked() {
    let mut p = LockPool { authority: addr(9), config: Config { authority: None, ..config(false) } };
    assert_eq!(p.authorize(), Err(AmmError::InvalidConfig));
    assert_eq!(p.lock(), Err(AmmError::InvalidConfig));
    assert!(!p.config.locked);
}

#[test]
fn swap_x_for_y() {
    let s = swap_accounts(false);
    let args = SwapArgs { is_x: true, amount: 100, min: 150 };
    let asked = std::cell::Cell::new(None);
    let r = s.swap(&args, |q| {
        asked.set(Some(q));
        Ok(SwapQuote { deposit: 100, withdraw: 196, fee: 1 })
    });
    assert_eq!(
        asked.get(),
        Some(SwapQuery {
            x: 10_000,
            y: 20_000,
            l: 1_000,
            fee: 30,
            pair: LiquidityPair::X,
            amount: 100,
            min: 150,
        })
    );
    let plan = r.unwrap();
    assert_eq!(
        plan.deposit,
        TransferPlan {
            from: TokenAccount::Owner(Side::X),
            to: TokenAccount::Vault(Side::X),
            mint: Side::X,
            authority: Authority::Owner,
            amount: 100,
            decimals: 6,
        }
    );
    assert_eq!(
        plan.withdraw,
        TransferPlan {
            from: TokenAccount::Vault(Side::Y),
            to: TokenAccount::Owner(Side::Y),
            mint: Side::Y,
            authority: Authority::Pool(pool_seeds()),
            amount: 196,
            decimals: 9,
        }
    );
    assert_eq!(
        plan.event,
        Swapped { config: addr(5), user: addr(7), is_x: true, amount_in: 100, amount_out: 196 }
    );
}

#[test]
fn swap_y_for_x() {
    let s = swap_accounts(false);
    let args = SwapArgs { is_x: false, amount: 50, min: 0 };
    let r = s.swap(&args, |q| {
        assert_eq!(q.pair, LiquidityPair::Y);
        Ok(SwapQuote { deposit: 50, withdraw: 24, fee: 0 })
    });
    let plan = r.unwrap();
    assert_eq!(plan.deposit.from, TokenAccount::Owner(Side::Y));
    assert_eq!(plan.deposit.to, TokenAccount::Vault(Side::Y));
    assert_eq!(plan.deposit.decimals, 9);
    assert_eq!(plan.withdraw.from, TokenAccount::Vault(Side::X));
    assert_eq!(plan.withdraw.to, TokenAccount::Owner(Side::X));
    assert_eq!(plan.withdraw.decimals, 6);
    assert_eq!(plan.withdraw.amount, 24);
    assert!(!plan.event.is_x);
}

#[test]
fn swap_of_zero_is_refused_before_the_curve() {
    let s = swap_accounts(true);
    let r = s.swap(&SwapArgs { is_x: true, amount: 0, min: 0 }, |_q| -> Result<SwapQuote, AmmError> {
        panic!("the curve must not be asked")
    });
    assert_eq!(r, Err(AmmError::InvalidAmount));
}

#[test]
fn swap_on_locked_pool_is_refused_before_the_curve() {
    let s = swap_accounts(true);
    let r = s.swap(&SwapArgs { is_x: true, amount: 5, min: 0 }, |_q| -> Result<SwapQuote, AmmError> {
        panic!("the curve must not be asked")
    });
    assert_eq!(r, Err(AmmError::AMMLocked));
}

#[test]
fn swap_passes_curve_error_on() {
    let s = swap_accounts(false);
    let r = s.swap(&SwapArgs { is_x: true, amount: 5, min: 1000 }, |_q| Err(AmmError::CurveError));
    assert_eq!(r, Err(AmmError::CurveError));
}

#[test]
fn swap_with_nothing_to_move_is_refused() {
    let s = swap_accounts(false);
    let args = SwapArgs { is_x: true, amount: 5, min: 0 };
    assert_eq!(
        s.settle(&args, Ok(SwapQuote { deposit: 0, withdraw: 3, fee: 0 })),
        Err(AmmError::InvalidAmount)
    );
    assert_eq!(
        s.settle(&args, Ok(SwapQuote { deposit: 5, withdraw: 0, fee: 0 })),
        Err(AmmError::InvalidAmount)
    );
}

#[test]
fn transfers_of_a_swap() {
    let s = swap_accounts(false);
    let args = SwapArgs { is_x: false, amount: 1, min: 0 };
    assert_eq!(s.transfer_to_vault(&args, 3).mint, Side::Y);
    assert_eq!(s.transfer_to_vault(&args, 3).authority, Authority::Owner);
    assert_eq!(s.withdraw_from_vault(&args, 4).mint, Side::X);
    assert_eq!(s.withdraw_from_vault(&args, 4).amount, 4);
    assert_eq!(s.curve_query(&args).pair, LiquidityPair::Y);
}

#[test]
fn withdraw_pays_both_tokens_and_burns() {
    let w = withdraw_accounts(false);
    let r = w.withdraw(100, 900, 1_900, |q| {
        assert_eq!(q, WithdrawQuery { x: 10_000, y: 20_000, l: 1_000, a: 100, precision: LP_DECIMALS });
        Ok(XYAmounts { x: 1_000, y: 2_000 })
    });
    let plan = r.unwrap();
    assert_eq!(
        plan.transfer_x,
        TransferPlan {
            from: TokenAccount::Vault(Side::X),
            to: TokenAccount::Owner(Side::X),
            mint: Side::X,
            authority: Authority::Pool(pool_seeds()),
            amount: 1_000,
            decimals: 6,
        }
    );
    assert_eq!(plan.transfer_y.amount, 2_000);
    assert_eq!(plan.transfer_y.decimals, 9);
    assert_eq!(plan.transfer_y.from, TokenAccount::Vault(Side::Y));
    assert_eq!(
        plan.burn,
        BurnPlan { from: TokenAccount::OwnerLp, authority: Authority::Owner, amount: 100 }
    );
    assert_eq!(
        plan.event,
        LiquidityRemoved { config: addr(5), lp_provider: addr(8), amount_x: 1_000, amount_y: 2_000, lp_burned: 100 }
    );
}

#[test]
fn withdraw_at_exact_minimums_is_accepted() {
    let w = withdraw_accounts(false);
    let r = w.settle(100, 1_000, 2_000, Ok(XYAmounts { x: 1_000, y: 2_000 }));
    assert!(r.is_ok());
}

#[test]
fn withdraw_short_of_minimums_is_refused() {
    let w = withdraw_accounts(false);
    assert_eq!(
        w.settle(100, 1_001, 2_001, Ok(XYAmounts { x: 1_000, y: 2_000 })),
        Err(AmmError::InsufficientTokenX)
    );
    assert_eq!(
        w.settle(100, 1_000, 2_001, Ok(XYAmounts { x: 1_000, y: 2_000 })),
        Err(AmmError::InsufficientTokenY)
    );
    assert_eq!(w.settle(100, 0, 0, Err(AmmError::CurveError)), Err(AmmError::CurveError));
}

#[test]
fn withdraw_of_zero_or_from_locked_pool_is_refused() {
    let w = withdraw_accounts(true);
    let never = |_q: WithdrawQuery| -> Result<XYAmounts, AmmError> { panic!("the curve must not be asked") };
    assert_eq!(w.withdraw(0, 0, 0, never), Err(AmmError::InvalidAmount));
    assert_eq!(w.withdraw(1, 0, 0, never), Err(AmmError::AMMLocked));
}

#[test]
fn withdraw_pieces() {
    let w = withdraw_accounts(false);
    assert_eq!(w.withdraw_tokens(false, 7).mint, Side::Y);
    assert_eq!(w.withdraw_tokens(true, 7).authority, Authority::Pool(pool_seeds()));
    assert_eq!(w.burn_lp_tokens(3).amount, 3);
    assert_eq!(w.curve_query(3).a, 3);
    assert_eq!(Side::from_is_x(true).opposite(), Side::Y);
}

#[test]
fn locking_then_swapping_is_refused_and_unlocking_reopens() {
    let mut p = LockPool { authority: addr(9), config: config(false) };
    p.lock().unwrap();
    let s = Swap { config: p.config, ..swap_accounts(false) };
    let ok = |_q: SwapQuery| Ok(SwapQuote { deposit: 1, withdraw: 1, fee: 0 });
    assert_eq!(s.swap(&SwapArgs { is_x: true, amount: 1, min: 0 }, ok), Err(AmmError::AMMLocked));
    p.unlock().unwrap();
    let s = Swap { config: p.config, ..swap_accounts(false) };
    assert!(s.swap(&SwapArgs { is_x: true, amount: 1, min: 0 }, ok).is_ok());
}

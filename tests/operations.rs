use amm_core::pool::{AmmError, Pool, PoolSigner, Side};
use amm_core::settlement::{Authority, Balances, Leg, Party};
use amm_core::swap::Swap;
use amm_core::withdraw::Withdraw;

fn pool(locked: bool, share_supply: u64) -> Pool {
    Pool {
        seed: 42,
        asset_x_id: 1,
        asset_y_id: 2,
        share_asset_id: 3,
        locked,
        authority_bump: 254,
        share_bump: 253,
        share_supply,
    }
}

fn swap_ctx(locked: bool, vault_x: u64, vault_y: u64, user_x: u64, user_y: u64) -> Swap {
    Swap {
        pool: pool(locked, 1000),
        balances: Balances { vault_x, vault_y, user_x, user_y },
        legs: Vec::new(),
    }
}

fn withdraw_ctx(locked: bool, supply: u64, vault_x: u64, vault_y: u64, user_shares: u64) -> Withdraw {
    Withdraw {
        pool: pool(locked, supply),
        balances: Balances { vault_x, vault_y, user_x: 0, user_y: 0 },
        user_shares,
        legs: Vec::new(),
    }
}

fn pool_signer() -> Authority {
    Authority::Pool(PoolSigner { seed: 42, bump: 254 })
}

#[test]
fn swap_scenario_slippage_then_success() {
    let mut s = swap_ctx(false, 1000, 1000, 500, 0);
    assert_eq!(s.swap(true, 100, 91), Err(AmmError::SlippageExceeded));
    assert_eq!(s.balances, Balances { vault_x: 1000, vault_y: 1000, user_x: 500, user_y: 0 });
    assert!(s.legs.is_empty());
    assert_eq!(s.swap(true, 100, 90), Ok(90));
    assert_eq!(s.balances, Balances { vault_x: 1100, vault_y: 910, user_x: 400, user_y: 90 });
}

#[test]
fn swap_legs_in_order_with_their_authorities() {
    let mut s = swap_ctx(false, 1000, 1000, 500, 0);
    assert_eq!(s.swap(true, 100, 0), Ok(90));
    assert_eq!(
        s.legs,
        vec![
            Leg::Transfer { asset: 1, from: Party::Caller, to: Party::Vault, amount: 100, authority: Authority::Caller },
            Leg::Transfer { asset: 2, from: Party::Vault, to: Party::Caller, amount: 90, authority: pool_signer() },
        ]
    );
}

#[test]
fn swap_y_for_x() {
    let mut s = swap_ctx(false, 500, 2000, 0, 100);
    // floor(500 * 100 / 2100) = 23
    assert_eq!(s.swap(false, 100, 23), Ok(23));
    assert_eq!(s.balances, Balances { vault_x: 477, vault_y: 2100, user_x: 23, user_y: 0 });
    assert!(s.balances.vault_x as u128 * s.balances.vault_y as u128 >= 500u128 * 2000);
    assert_eq!(s.legs[0], Leg::Transfer { asset: 2, from: Party::Caller, to: Party::Vault, amount: 100, authority: Authority::Caller });
    assert_eq!(s.legs[1], Leg::Transfer { asset: 1, from: Party::Vault, to: Party::Caller, amount: 23, authority: pool_signer() });
}

#[test]
fn swap_zero_amount_is_invalid() {
    let mut s = swap_ctx(false, 1000, 1000, 500, 500);
    assert_eq!(s.swap(true, 0, 0), Err(AmmError::InvalidAmount));
    assert_eq!(s.swap(false, 0, 10), Err(AmmError::InvalidAmount));
}

#[test]
fn swap_on_locked_pool_fails() {
    let mut s = swap_ctx(true, 1000, 1000, 500, 500);
    assert_eq!(s.swap(true, 100, 0), Err(AmmError::PoolLocked));
    assert_eq!(s.swap(false, 0, 0), Err(AmmError::PoolLocked));
    assert_eq!(s.swap(true, 100, u64::MAX), Err(AmmError::PoolLocked));
    assert_eq!(s.balances, Balances { vault_x: 1000, vault_y: 1000, user_x: 500, user_y: 500 });
}

#[test]
fn swap_overflow_error() {
    let mut s = swap_ctx(false, u64::MAX, 1000, 10, 0);
    assert_eq!(s.swap(true, 1, 0), Err(AmmError::Overflow));
}

#[test]
fn swap_insufficient_liquidity_error() {
    let mut s = swap_ctx(false, 0, 1000, 10, 0);
    assert_eq!(s.swap(true, 10, 0), Err(AmmError::InsufficientLiquidity));
}

#[test]
fn swap_caller_short_of_input_fails_without_effect() {
    let mut s = swap_ctx(false, 1000, 1000, 50, 0);
    assert_eq!(s.swap(true, 100, 0), Err(AmmError::TransferFailed));
    assert_eq!(s.balances, Balances { vault_x: 1000, vault_y: 1000, user_x: 50, user_y: 0 });
    assert!(s.legs.is_empty());
}

#[test]
fn swap_pay_out_failure_rolls_back_deposit() {
    let mut s = swap_ctx(false, 1000, 1000, 500, u64::MAX - 10);
    assert_eq!(s.swap(true, 100, 0), Err(AmmError::TransferFailed));
    assert_eq!(s.balances, Balances { vault_x: 1000, vault_y: 1000, user_x: 500, user_y: u64::MAX - 10 });
    assert!(s.legs.is_empty());
}

#[test]
fn swap_deposit_and_withdraw_legs_alone() {
    let mut s = swap_ctx(false, 10, 20, 5, 5);
    assert_eq!(s.deposit_tokens(false, 5), Ok(()));
    assert_eq!(s.balances, Balances { vault_x: 10, vault_y: 25, user_x: 5, user_y: 0 });
    assert_eq!(s.deposit_tokens(false, 1), Err(AmmError::TransferFailed));
    assert_eq!(s.withdraw_tokens(true, 10), Ok(()));
    assert_eq!(s.balances, Balances { vault_x: 0, vault_y: 25, user_x: 15, user_y: 0 });
    assert_eq!(s.withdraw_tokens(true, 1), Err(AmmError::TransferFailed));
    assert_eq!(s.legs.len(), 2);
    assert_eq!(s.legs[1], Leg::Transfer { asset: 1, from: Party::Vault, to: Party::Caller, amount: 10, authority: pool_signer() });
}

#[test]
fn withdraw_scenario() {
    let mut w = withdraw_ctx(false, 1000, 500, 2000, 400);
    assert_eq!(w.withdraw(250, 125, 500), Ok((125, 500)));
    assert_eq!(w.pool.share_supply, 750);
    assert_eq!(w.user_shares, 150);
    assert_eq!(w.balances, Balances { vault_x: 375, vault_y: 1500, user_x: 125, user_y: 500 });
    assert_eq!(
        w.legs,
        vec![
            Leg::Burn { asset: 3, holder: Party::Caller, amount: 250, authority: pool_signer() },
            Leg::Transfer { asset: 1, from: Party::Vault, to: Party::Caller, amount: 125, authority: pool_signer() },
            Leg::Transfer { asset: 2, from: Party::Vault, to: Party::Caller, amount: 500, authority: pool_signer() },
        ]
    );
}

#[test]
fn withdraw_slippage_on_either_side() {
    let mut w = withdraw_ctx(false, 1000, 500, 2000, 400);
    assert_eq!(w.withdraw(250, 126, 0), Err(AmmError::SlippageExceeded));
    assert_eq!(w.withdraw(250, 0, 501), Err(AmmError::SlippageExceeded));
    assert_eq!(w.pool.share_supply, 1000);
    assert!(w.legs.is_empty());
}

#[test]
fn withdraw_zero_shares_is_invalid() {
    let mut w = withdraw_ctx(false, 1000, 500, 2000, 400);
    assert_eq!(w.withdraw(0, 0, 0), Err(AmmError::InvalidAmount));
}

#[test]
fn withdraw_on_locked_pool_fails() {
    let mut w = withdraw_ctx(true, 1000, 500, 2000, 400);
    assert_eq!(w.withdraw(250, 0, 0), Err(AmmError::PoolLocked));
    assert_eq!(w.withdraw(0, 0, 0), Err(AmmError::PoolLocked));
    assert_eq!(w.pool.share_supply, 1000);
}

#[test]
fn withdraw_from_empty_supply() {
    let mut w = withdraw_ctx(false, 0, 0, 0, 0);
    assert_eq!(w.withdraw(1, 0, 0), Err(AmmError::DivisionByZero));
}

#[test]
fn withdraw_more_than_supply() {
    let mut w = withdraw_ctx(false, 100, 500, 2000, 100);
    assert_eq!(w.withdraw(101, 0, 0), Err(AmmError::InsufficientLiquidity));
}

#[test]
fn withdraw_more_than_held_fails_without_effect() {
    let mut w = withdraw_ctx(false, 1000, 500, 2000, 100);
    assert_eq!(w.withdraw(250, 0, 0), Err(AmmError::TransferFailed));
    assert_eq!(w.pool.share_supply, 1000);
    assert_eq!(w.user_shares, 100);
    assert!(w.legs.is_empty());
}

#[test]
fn withdraw_second_pay_out_failure_rolls_back_all() {
    let mut w = withdraw_ctx(false, 1000, 500, 2000, 400);
    w.balances.user_y = u64::MAX - 1;
    assert_eq!(w.withdraw(250, 0, 0), Err(AmmError::TransferFailed));
    assert_eq!(w.pool.share_supply, 1000);
    assert_eq!(w.user_shares, 400);
    assert_eq!(w.balances, Balances { vault_x: 500, vault_y: 2000, user_x: 0, user_y: u64::MAX - 1 });
    assert!(w.legs.is_empty());
}

#[test]
fn withdraw_whole_supply_empties_vaults() {
    let mut w = withdraw_ctx(false, 1000, 500, 2000, 1000);
    assert_eq!(w.withdraw(1000, 500, 2000), Ok((500, 2000)));
    assert_eq!(w.pool.share_supply, 0);
    assert_eq!(w.balances.vault_x, 0);
    assert_eq!(w.balances.vault_y, 0);
}

#[test]
fn burn_lp_tokens_alone() {
    let mut w = withdraw_ctx(false, 1000, 500, 2000, 10);
    assert_eq!(w.burn_lp_tokens(4), Ok(()));
    assert_eq!(w.pool.share_supply, 996);
    assert_eq!(w.user_shares, 6);
    assert_eq!(w.burn_lp_tokens(7), Err(AmmError::TransferFailed));
    assert_eq!(w.withdraw_tokens(false, 2001), Err(AmmError::TransferFailed));
    assert_eq!(w.withdraw_tokens(false, 2000), Ok(()));
    assert_eq!(w.balances.user_y, 2000);
}

#[test]
fn side_helpers() {
    assert_eq!(Side::from_is_x(true), Side::X);
    assert_eq!(Side::from_is_x(false), Side::Y);
    let p = pool(false, 0);
    assert_eq!(p.asset(Side::Y), 2);
    assert_eq!(p.signer(), PoolSigner { seed: 42, bump: 254 });
}

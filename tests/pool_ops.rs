use amm::authority::derive_authority;
use amm::curve::amount_out;
use amm::engine::{
    initialize_pool, provide_liquidity, swap, trade, InitializePool, Legs, ProvideLiquidity, Swap,
};
use amm::pool::{same_address, Address, AmmError, Pool, SwapDirection};
use anchor_lang::prelude::Pubkey;

const PROGRAM: Address = [9u8; 32];
const MINT_0: Address = [1u8; 32];
const MINT_1: Address = [2u8; 32];

fn pool_address_and_bump() -> (Address, u8) {
    let (key, bump) = Pubkey::find_program_address(
        &[b"pool", &MINT_0, &MINT_1],
        &Pubkey::new_from_array(PROGRAM),
    );
    (key.to_bytes(), bump)
}

fn seeded_swap(reserve_0: u64, reserve_1: u64, user_0: u64, user_1: u64) -> Swap {
    let (address, bump) = pool_address_and_bump();
    Swap {
        pool: Pool {
            token_0: MINT_0,
            token_1: MINT_1,
            token_0_reserves: reserve_0,
            token_1_reserves: reserve_1,
            pda_bump: bump,
        },
        pool_address: address,
        program_id: PROGRAM,
        user_token_0_balance: user_0,
        user_token_1_balance: user_1,
        token_0_vault_balance: reserve_0,
        token_1_vault_balance: reserve_1,
    }
}

fn empty_provide(user_0: u64, user_1: u64) -> ProvideLiquidity {
    let pool = initialize_pool(&InitializePool { token_0: MINT_0, token_1: MINT_1, pool_bump: 7 })
        .unwrap();
    ProvideLiquidity {
        pool,
        user_token_0_balance: user_0,
        user_token_1_balance: user_1,
        token_0_vault_balance: 0,
        token_1_vault_balance: 0,
    }
}

#[test]
fn initialize_rejects_matching_assets() {
    let ctx = InitializePool { token_0: MINT_0, token_1: MINT_0, pool_bump: 3 };
    assert_eq!(initialize_pool(&ctx), Err(AmmError::MatchingAssets));
}

#[test]
fn initialize_creates_empty_pool() {
    let ctx = InitializePool { token_0: MINT_0, token_1: MINT_1, pool_bump: 254 };
    let pool = initialize_pool(&ctx).unwrap();
    assert_eq!(pool.token_0, MINT_0);
    assert_eq!(pool.token_1, MINT_1);
    assert_eq!(pool.token_0_reserves, 0);
    assert_eq!(pool.token_1_reserves, 0);
    assert_eq!(pool.pda_bump, 254);
}

#[test]
fn new_pool_cannot_trade_before_seeding() {
    let mut ctx = seeded_swap(0, 0, 100, 100);
    let before = ctx;
    assert_eq!(swap(&mut ctx, SwapDirection::Token0ToToken1, 10), Err(AmmError::PoolNotSeeded));
    assert_eq!(ctx.pool, before.pool);
    assert_eq!(ctx.user_token_0_balance, 100);
    assert_eq!(ctx.token_0_vault_balance, 0);
}

#[test]
fn seeding_sets_reserves_and_second_seeding_is_noop() {
    let mut ctx = empty_provide(500, 500);
    assert_eq!(provide_liquidity(&mut ctx, 100, 200), Ok(()));
    assert_eq!(ctx.pool.token_0_reserves, 100);
    assert_eq!(ctx.pool.token_1_reserves, 200);
    assert_eq!(ctx.user_token_0_balance, 400);
    assert_eq!(ctx.user_token_1_balance, 300);
    assert_eq!(ctx.token_0_vault_balance, 100);
    assert_eq!(ctx.token_1_vault_balance, 200);
    assert_eq!(provide_liquidity(&mut ctx, 30, 40), Ok(()));
    assert_eq!(ctx.pool.token_0_reserves, 100);
    assert_eq!(ctx.pool.token_1_reserves, 200);
    assert_eq!(ctx.user_token_0_balance, 400);
    assert_eq!(ctx.user_token_1_balance, 300);
    assert_eq!(ctx.token_0_vault_balance, 100);
    assert_eq!(ctx.token_1_vault_balance, 200);
}

#[test]
fn seeding_one_sided_is_rejected() {
    let mut ctx = empty_provide(500, 500);
    assert_eq!(provide_liquidity(&mut ctx, 0, 200), Err(AmmError::OneSidedLiquidity));
    assert_eq!(ctx.pool.token_1_reserves, 0);
    assert_eq!(ctx.user_token_1_balance, 500);
}

#[test]
fn seeding_beyond_balance_is_rejected() {
    let mut ctx = empty_provide(50, 500);
    assert_eq!(provide_liquidity(&mut ctx, 100, 200), Err(AmmError::InsufficientBalance));
    assert_eq!(ctx.pool.token_0_reserves, 0);
    assert_eq!(ctx.user_token_0_balance, 50);
    assert_eq!(ctx.user_token_1_balance, 500);
}

#[test]
fn seeding_one_sided_without_funds_is_insufficient_balance() {
    let mut ctx = empty_provide(0, 0);
    assert_eq!(provide_liquidity(&mut ctx, 0, 5), Err(AmmError::InsufficientBalance));
    assert_eq!(ctx.pool.token_0_reserves, 0);
    assert_eq!(ctx.pool.token_1_reserves, 0);
    assert_eq!(ctx.user_token_1_balance, 0);
    assert_eq!(ctx.token_1_vault_balance, 0);
}

#[test]
fn seeding_short_of_second_asset_moves_nothing() {
    let mut ctx = empty_provide(500, 150);
    assert_eq!(provide_liquidity(&mut ctx, 100, 200), Err(AmmError::InsufficientBalance));
    assert_eq!(ctx.pool.token_0_reserves, 0);
    assert_eq!(ctx.pool.token_1_reserves, 0);
    assert_eq!(ctx.user_token_0_balance, 500);
    assert_eq!(ctx.user_token_1_balance, 150);
    assert_eq!(ctx.token_0_vault_balance, 0);
    assert_eq!(ctx.token_1_vault_balance, 0);
}

#[test]
fn seeding_into_full_vault_overflows() {
    let mut ctx = empty_provide(500, 500);
    ctx.token_1_vault_balance = u64::MAX - 10;
    assert_eq!(provide_liquidity(&mut ctx, 100, 200), Err(AmmError::ArithmeticOverflow));
    assert_eq!(ctx.pool.token_0_reserves, 0);
    assert_eq!(ctx.token_0_vault_balance, 0);
}

#[test]
fn swap_asset_0_for_asset_1_exact_arithmetic() {
    let mut ctx = seeded_swap(1000, 1000, 100, 0);
    assert_eq!(swap(&mut ctx, SwapDirection::Token0ToToken1, 100), Ok(91));
    assert_eq!(ctx.pool.token_0_reserves, 1100);
    assert_eq!(ctx.pool.token_1_reserves, 909);
    assert_eq!(ctx.user_token_0_balance, 0);
    assert_eq!(ctx.user_token_1_balance, 91);
    assert_eq!(ctx.token_0_vault_balance, 1100);
    assert_eq!(ctx.token_1_vault_balance, 909);
}

#[test]
fn swap_asset_1_for_asset_0_exact_arithmetic() {
    let mut ctx = seeded_swap(1000, 1000, 0, 100);
    assert_eq!(swap(&mut ctx, SwapDirection::Token1ToToken0, 100), Ok(91));
    assert_eq!(ctx.pool.token_0_reserves, 909);
    assert_eq!(ctx.pool.token_1_reserves, 1100);
    assert_eq!(ctx.user_token_0_balance, 91);
    assert_eq!(ctx.user_token_1_balance, 0);
}

#[test]
fn swap_zero_amount_pays_nothing() {
    let mut ctx = seeded_swap(1000, 1000, 0, 0);
    assert_eq!(swap(&mut ctx, SwapDirection::Token0ToToken1, 0), Ok(0));
    assert_eq!(ctx.pool.token_0_reserves, 1000);
    assert_eq!(ctx.pool.token_1_reserves, 1000);
}

#[test]
fn round_trip_returns_at_most_input() {
    let mut ctx = seeded_swap(1000, 1000, 1000, 0);
    let out = swap(&mut ctx, SwapDirection::Token0ToToken1, 1000).unwrap();
    assert_eq!(out, 500);
    let back = swap(&mut ctx, SwapDirection::Token1ToToken0, out).unwrap();
    assert!(back <= 1000);
    assert_eq!(back, 1000);
}

#[test]
fn round_trip_with_inexact_division_rounds_for_trader() {
    let mut ctx = seeded_swap(2, 3, 2, 0);
    let out = swap(&mut ctx, SwapDirection::Token0ToToken1, 2).unwrap();
    assert_eq!(out, 2);
    let back = swap(&mut ctx, SwapDirection::Token1ToToken0, out).unwrap();
    assert_eq!(back, 3);
}

#[test]
fn sequential_swaps_use_updated_reserves() {
    let mut ctx = seeded_swap(1000, 1000, 200, 0);
    assert_eq!(swap(&mut ctx, SwapDirection::Token0ToToken1, 100), Ok(91));
    assert_eq!(swap(&mut ctx, SwapDirection::Token0ToToken1, 100), Ok(76));
    assert_eq!(ctx.pool.token_0_reserves, 1200);
    assert_eq!(ctx.pool.token_1_reserves, 833);
}

#[test]
fn swap_beyond_user_balance_is_rejected() {
    let mut ctx = seeded_swap(1000, 1000, 50, 0);
    assert_eq!(swap(&mut ctx, SwapDirection::Token0ToToken1, 100), Err(AmmError::InsufficientBalance));
    assert_eq!(ctx.pool.token_0_reserves, 1000);
    assert_eq!(ctx.user_token_0_balance, 50);
}

#[test]
fn swap_overflowing_reserve_is_rejected() {
    let mut ctx = seeded_swap(u64::MAX - 5, 1000, 100, 0);
    ctx.token_0_vault_balance = 0;
    assert_eq!(swap(&mut ctx, SwapDirection::Token0ToToken1, 10), Err(AmmError::ArithmeticOverflow));
    assert_eq!(ctx.pool.token_0_reserves, u64::MAX - 5);
    assert_eq!(ctx.user_token_0_balance, 100);
}

#[test]
fn swap_with_wrong_bump_is_not_authorized() {
    let mut ctx = seeded_swap(1000, 1000, 100, 0);
    ctx.pool.pda_bump = ctx.pool.pda_bump.wrapping_sub(1);
    assert_eq!(swap(&mut ctx, SwapDirection::Token0ToToken1, 100), Err(AmmError::InvalidAuthority));
    assert_eq!(ctx.pool.token_0_reserves, 1000);
    assert_eq!(ctx.user_token_0_balance, 100);
}

#[test]
fn swap_with_wrong_pool_address_is_not_authorized() {
    let mut ctx = seeded_swap(1000, 1000, 100, 0);
    ctx.pool_address = [5u8; 32];
    assert_eq!(swap(&mut ctx, SwapDirection::Token0ToToken1, 100), Err(AmmError::InvalidAuthority));
}

#[test]
fn swap_from_short_vault_is_rejected() {
    let mut ctx = seeded_swap(1000, 1000, 100, 0);
    ctx.token_1_vault_balance = 50;
    assert_eq!(swap(&mut ctx, SwapDirection::Token0ToToken1, 100), Err(AmmError::InsufficientBalance));
    assert_eq!(ctx.token_1_vault_balance, 50);
}

#[test]
fn derive_authority_matches_ledger_derivation() {
    let (address, bump) = pool_address_and_bump();
    assert_eq!(derive_authority(&PROGRAM, &MINT_0, &MINT_1, bump), Some(address));
    assert_ne!(derive_authority(&PROGRAM, &MINT_1, &MINT_0, bump), Some(address));
    assert_ne!(address, MINT_0);
}

#[test]
fn pool_authorizes_only_its_own_address() {
    let ctx = seeded_swap(1, 1, 0, 0);
    assert!(ctx.pool.authorizes(&PROGRAM, &ctx.pool_address));
    assert!(!ctx.pool.authorizes(&PROGRAM, &MINT_0));
    assert!(!ctx.pool.authorizes(&MINT_0, &ctx.pool_address));
}

#[test]
fn amount_out_formula_values() {
    assert_eq!(amount_out(1000, 1000, 100), 91);
    assert_eq!(amount_out(1100, 909, 100), 76);
    assert_eq!(amount_out(1, 1, 1), 1);
    assert_eq!(amount_out(u64::MAX, u64::MAX, u64::MAX), u64::MAX - u64::MAX / 2);
}

#[test]
fn trade_on_legs_pays_out_and_commits() {
    let l = Legs { reserve_in: 1000, reserve_out: 1000, user_in: 100, user_out: 0, vault_in: 1000, vault_out: 1000 };
    let (after, out) = trade(l, 100, true).unwrap();
    assert_eq!(out, 91);
    assert_eq!(after.reserve_in, 1100);
    assert_eq!(after.reserve_out, 909);
    assert_eq!(after.user_out, 91);
    assert_eq!(trade(l, 100, false).unwrap_err(), AmmError::InvalidAuthority);
}

#[test]
fn same_address_compares_every_byte() {
    let mut other = MINT_0;
    assert!(same_address(&MINT_0, &other));
    other[31] = 0;
    assert!(!same_address(&MINT_0, &other));
}

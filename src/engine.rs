//! The three pool operations: create, seed, trade.
//!
//! Each operation is stated as an outcome spec function; the executable
//! operation returns exactly that outcome and, on failure, leaves every
//! balance and the pool record as they were.
use vstd::prelude::*;
use crate::authority::pool_authority;
use crate::curve::{amount_out, quote};
use crate::pool::{same_address, Address, AmmError, Pool, SwapDirection};

verus! {

/// What creating a pool is given: the two assets, and the bump under which
/// the ledger placed the pool record.
#[derive(Clone, Copy, Debug)]
pub struct InitializePool {
    pub token_0: Address,
    pub token_1: Address,
    pub pool_bump: u8,
}

/// What seeding a pool touches: the pool, and the provider's and the vaults'
/// balances of both assets.
#[derive(Clone, Copy, Debug)]
pub struct ProvideLiquidity {
    pub pool: Pool,
    pub user_token_0_balance: u64,
    pub user_token_1_balance: u64,
    pub token_0_vault_balance: u64,
    pub token_1_vault_balance: u64,
}

/// What a trade touches: the pool and its address under the program
/// `program_id`, and the trader's and the vaults' balances of both assets.
#[derive(Clone, Copy, Debug)]
pub struct Swap {
    pub pool: Pool,
    pub pool_address: Address,
    pub program_id: Address,
    pub user_token_0_balance: u64,
    pub user_token_1_balance: u64,
    pub token_0_vault_balance: u64,
    pub token_1_vault_balance: u64,
}

/// One trade seen from its direction: the input side and the output side of
/// the reserves, the trader's balances and the vaults.
#[derive(Clone, Copy, Debug)]
pub struct Legs {
    pub reserve_in: u64,
    pub reserve_out: u64,
    pub user_in: u64,
    pub user_out: u64,
    pub vault_in: u64,
    pub vault_out: u64,
}

/// The outcome of creating a pool.
pub open spec fn initialize_outcome(ctx: InitializePool) -> Result<Pool, AmmError> {
    if ctx.token_0@ == ctx.token_1@ {
        Err(AmmError::MatchingAssets)
    } else {
        Ok(
            Pool {
                token_0: ctx.token_0,
                token_1: ctx.token_1,
                token_0_reserves: 0,
                token_1_reserves: 0,
                pda_bump: ctx.pool_bump,
            },
        )
    }
}

/// The outcome of seeding: a no-op on a pool that is not empty; otherwise
/// both amounts move from the provider to the vaults and become the reserves.
pub open spec fn provide_outcome(c: ProvideLiquidity, token_0_max: u64, token_1_max: u64) -> Result<
    ProvideLiquidity,
    AmmError,
> {
    if !c.pool.is_empty() {
        Ok(c)
    } else if c.user_token_0_balance < token_0_max || c.user_token_1_balance < token_1_max {
        Err(AmmError::InsufficientBalance)
    } else if (token_0_max == 0) != (token_1_max == 0) {
        Err(AmmError::OneSidedLiquidity)
    } else if c.token_0_vault_balance + token_0_max > u64::MAX || c.token_1_vault_balance
        + token_1_max > u64::MAX {
        Err(AmmError::ArithmeticOverflow)
    } else {
        Ok(
            ProvideLiquidity {
                pool: Pool {
                    token_0_reserves: token_0_max,
                    token_1_reserves: token_1_max,
                    ..c.pool
                },
                user_token_0_balance: (c.user_token_0_balance - token_0_max) as u64,
                user_token_1_balance: (c.user_token_1_balance - token_1_max) as u64,
                token_0_vault_balance: (c.token_0_vault_balance + token_0_max) as u64,
                token_1_vault_balance: (c.token_1_vault_balance + token_1_max) as u64,
            },
        )
    }
}

/// The outcome of one trade of `amount_in`, seen from its direction, where
/// `authorized` tells whether the pool may sign for its vaults. The steps run
/// in order: pull the input into its vault, price against the reserves as
/// they stood, push the output to the trader, commit the reserves.
pub open spec fn trade_outcome(l: Legs, amount_in: u64, authorized: bool) -> Result<
    (Legs, u64),
    AmmError,
> {
    if l.reserve_in == 0 || l.reserve_out == 0 {
        Err(AmmError::PoolNotSeeded)
    } else if l.user_in < amount_in {
        Err(AmmError::InsufficientBalance)
    } else if l.vault_in + amount_in > u64::MAX {
        Err(AmmError::ArithmeticOverflow)
    } else if !authorized {
        Err(AmmError::InvalidAuthority)
    } else {
        let out = quote(l.reserve_in as int, l.reserve_out as int, amount_in as int);
        if l.vault_out < out {
            Err(AmmError::InsufficientBalance)
        } else if l.user_out + out > u64::MAX || l.reserve_in + amount_in > u64::MAX {
            Err(AmmError::ArithmeticOverflow)
        } else {
            Ok(
                (
                    Legs {
                        reserve_in: (l.reserve_in + amount_in) as u64,
                        reserve_out: (l.reserve_out - out) as u64,
                        user_in: (l.user_in - amount_in) as u64,
                        user_out: (l.user_out + out) as u64,
                        vault_in: (l.vault_in + amount_in) as u64,
                        vault_out: (l.vault_out - out) as u64,
                    },
                    out as u64,
                ),
            )
        }
    }
}

/// A trade's legs, taken from the trade record in the given direction.
pub open spec fn legs_of(s: Swap, direction: SwapDirection) -> Legs {
    match direction {
        SwapDirection::Token0ToToken1 => Legs {
            reserve_in: s.pool.token_0_reserves,
            reserve_out: s.pool.token_1_reserves,
            user_in: s.user_token_0_balance,
            user_out: s.user_token_1_balance,
            vault_in: s.token_0_vault_balance,
            vault_out: s.token_1_vault_balance,
        },
        SwapDirection::Token1ToToken0 => Legs {
            reserve_in: s.pool.token_1_reserves,
            reserve_out: s.pool.token_0_reserves,
            user_in: s.user_token_1_balance,
            user_out: s.user_token_0_balance,
            vault_in: s.token_1_vault_balance,
            vault_out: s.token_0_vault_balance,
        },
    }
}

/// The trade record with its legs in the given direction replaced by `l`.
pub open spec fn with_legs(s: Swap, direction: SwapDirection, l: Legs) -> Swap {
    match direction {
        SwapDirection::Token0ToToken1 => Swap {
            pool: Pool { token_0_reserves: l.reserve_in, token_1_reserves: l.reserve_out, ..s.pool },
            user_token_0_balance: l.user_in,
            user_token_1_balance: l.user_out,
            token_0_vault_balance: l.vault_in,
            token_1_vault_balance: l.vault_out,
            ..s
        },
        SwapDirection::Token1ToToken0 => Swap {
            pool: Pool { token_1_reserves: l.reserve_in, token_0_reserves: l.reserve_out, ..s.pool },
            user_token_1_balance: l.user_in,
            user_token_0_balance: l.user_out,
            token_1_vault_balance: l.vault_in,
            token_0_vault_balance: l.vault_out,
            ..s
        },
    }
}

/// Whether the pool's stored derivation parameters give the trade's pool
/// address.
pub open spec fn swap_authorized(s: Swap) -> bool {
    pool_authority(s.pool, s.program_id@) == Some(s.pool_address@)
}

/// The outcome of a trade: the new record and the amount paid out.
pub open spec fn swap_outcome(s: Swap, direction: SwapDirection, amount_in: u64) -> Result<
    (Swap, u64),
    AmmError,
> {
    match trade_outcome(legs_of(s, direction), amount_in, swap_authorized(s)) {
        Ok((l, out)) => Ok((with_legs(s, direction, l), out)),
        Err(e) => Err(e),
    }
}

/// Creates the record of a new, empty pool for two distinct assets.
pub fn initialize_pool(ctx: &InitializePool) -> (r: Result<Pool, AmmError>)
    ensures
        r == initialize_outcome(*ctx),
{
    if same_address(&ctx.token_0, &ctx.token_1) {
        return Err(AmmError::MatchingAssets);
    }
    Ok(
        Pool {
            token_0: ctx.token_0,
            token_1: ctx.token_1,
            token_0_reserves: 0,
            token_1_reserves: 0,
            pda_bump: ctx.pool_bump,
        },
    )
}

/// Seeds an empty pool with exactly `token_0_max` and `token_1_max`; does
/// nothing to a pool that already holds liquidity.
pub fn provide_liquidity(ctx: &mut ProvideLiquidity, token_0_max: u64, token_1_max: u64) -> (r:
    Result<(), AmmError>)
    ensures
        match provide_outcome(*old(ctx), token_0_max, token_1_max) {
            Ok(c) => r is Ok && *final(ctx) == c,
            Err(e) => r == Err::<(), AmmError>(e) && *final(ctx) == *old(ctx),
        },
{
    if ctx.pool.token_0_reserves != 0 || ctx.pool.token_1_reserves != 0 {
        return Ok(());
    }
    if ctx.user_token_0_balance < token_0_max || ctx.user_token_1_balance < token_1_max {
        return Err(AmmError::InsufficientBalance);
    }
    if (token_0_max == 0) != (token_1_max == 0) {
        return Err(AmmError::OneSidedLiquidity);
    }
    if ctx.token_0_vault_balance > u64::MAX - token_0_max || ctx.token_1_vault_balance > u64::MAX
        - token_1_max {
        return Err(AmmError::ArithmeticOverflow);
    }
    ctx.user_token_0_balance = ctx.user_token_0_balance - token_0_max;
    ctx.token_0_vault_balance = ctx.token_0_vault_balance + token_0_max;
    ctx.user_token_1_balance = ctx.user_token_1_balance - token_1_max;
    ctx.token_1_vault_balance = ctx.token_1_vault_balance + token_1_max;
    ctx.pool.token_0_reserves = token_0_max;
    ctx.pool.token_1_reserves = token_1_max;
    Ok(())
}

/// Runs one trade on its legs, or says why it cannot run.
pub fn trade(l: Legs, amount_in: u64, authorized: bool) -> (r: Result<(Legs, u64), AmmError>)
    ensures
        r == trade_outcome(l, amount_in, authorized),
{
    if l.reserve_in == 0 || l.reserve_out == 0 {
        return Err(AmmError::PoolNotSeeded);
    }
    if l.user_in < amount_in {
        return Err(AmmError::InsufficientBalance);
    }
    if l.vault_in > u64::MAX - amount_in {
        return Err(AmmError::ArithmeticOverflow);
    }
    if !authorized {
        return Err(AmmError::InvalidAuthority);
    }
    let out = amount_out(l.reserve_in, l.reserve_out, amount_in);
    if l.vault_out < out {
        return Err(AmmError::InsufficientBalance);
    }
    if l.user_out > u64::MAX - out || l.reserve_in > u64::MAX - amount_in {
        return Err(AmmError::ArithmeticOverflow);
    }
    Ok(
        (
            Legs {
                reserve_in: l.reserve_in + amount_in,
                reserve_out: l.reserve_out - out,
                user_in: l.user_in - amount_in,
                user_out: l.user_out + out,
                vault_in: l.vault_in + amount_in,
                vault_out: l.vault_out - out,
            },
            out,
        ),
    )
}

/// Trades `amount_in` of one asset for the other at the constant-product
/// price, and returns the amount paid out.
pub fn swap(ctx: &mut Swap, direction: SwapDirection, amount_in: u64) -> (r: Result<u64, AmmError>)
    ensures
        match swap_outcome(*old(ctx), direction, amount_in) {
            Ok((s, out)) => r == Ok::<u64, AmmError>(out) && *final(ctx) == s,
            Err(e) => r == Err::<u64, AmmError>(e) && *final(ctx) == *old(ctx),
        },
{
    let authorized = ctx.pool.authorizes(&ctx.program_id, &ctx.pool_address);
    let legs = match direction {
        SwapDirection::Token0ToToken1 => Legs {
            reserve_in: ctx.pool.token_0_reserves,
            reserve_out: ctx.pool.token_1_reserves,
            user_in: ctx.user_token_0_balance,
            user_out: ctx.user_token_1_balance,
            vault_in: ctx.token_0_vault_balance,
            vault_out: ctx.token_1_vault_balance,
        },
        SwapDirection::Token1ToToken0 => Legs {
            reserve_in: ctx.pool.token_1_reserves,
            reserve_out: ctx.pool.token_0_reserves,
            user_in: ctx.user_token_1_balance,
            user_out: ctx.user_token_0_balance,
            vault_in: ctx.token_1_vault_balance,
            vault_out: ctx.token_0_vault_balance,
        },
    };
    let (l, out) = match trade(legs, amount_in, authorized) {
        Ok(t) => t,
        Err(e) => return Err(e),
    };
    match direction {
        SwapDirection::Token0ToToken1 => {
            ctx.pool.token_0_reserves = l.reserve_in;
            ctx.pool.token_1_reserves = l.reserve_out;
            ctx.user_token_0_balance = l.user_in;
            ctx.user_token_1_balance = l.user_out;
            ctx.token_0_vault_balance = l.vault_in;
            ctx.token_1_vault_balance = l.vault_out;
        },
        SwapDirection::Token1ToToken0 => {
            ctx.pool.token_1_reserves = l.reserve_in;
            ctx.pool.token_0_reserves = l.reserve_out;
            ctx.user_token_1_balance = l.user_in;
            ctx.user_token_0_balance = l.user_out;
            ctx.token_1_vault_balance = l.vault_in;
            ctx.token_0_vault_balance = l.vault_out;
        },
    }
    Ok(out)
}

} // verus!

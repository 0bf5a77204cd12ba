//! Properties that hold across calls of the pool operations.
use vstd::prelude::*;
use crate::curve::{lemma_quote_bounds, quote};
use crate::engine::{
    initialize_outcome, legs_of, provide_outcome, swap_authorized, swap_outcome, trade_outcome,
    with_legs, InitializePool, ProvideLiquidity,
    Swap,
};
use crate::pool::{AmmError, SwapDirection};

verus! {

/// A pool cannot be created for a pair whose two assets are the same: the
/// creation fails with `MatchingAssets` and yields no record.
pub proof fn lemma_matching_assets_rejected(ctx: InitializePool)
    requires
        ctx.token_0@ == ctx.token_1@,
    ensures
        initialize_outcome(ctx) == Err::<crate::pool::Pool, AmmError>(AmmError::MatchingAssets),
{
}

/// A newly created pool holds nothing, and no trade can change that: every
/// trade against it fails with `PoolNotSeeded`, so only seeding fills it.
pub proof fn lemma_new_pool_is_empty(
    ctx: InitializePool,
    s: Swap,
    direction: SwapDirection,
    amount_in: u64,
)
    requires
        initialize_outcome(ctx) is Ok,
        s.pool == initialize_outcome(ctx)->Ok_0,
    ensures
        s.pool.token_0_reserves == 0,
        s.pool.token_1_reserves == 0,
        swap_outcome(s, direction, amount_in) == Err::<(Swap, u64), AmmError>(
            AmmError::PoolNotSeeded,
        ),
{
}

/// Seeding happens once: after a pool has been seeded with a non-zero amount,
/// any further seeding request succeeds without moving funds or changing the
/// reserves.
pub proof fn lemma_second_seeding_is_noop(
    c: ProvideLiquidity,
    token_0_max: u64,
    token_1_max: u64,
    again_0: u64,
    again_1: u64,
)
    requires
        provide_outcome(c, token_0_max, token_1_max) is Ok,
        token_0_max > 0 || token_1_max > 0,
    ensures
        ({
            let seeded = provide_outcome(c, token_0_max, token_1_max)->Ok_0;
            provide_outcome(seeded, again_0, again_1) == Ok::<ProvideLiquidity, AmmError>(seeded)
        }),
{
}

/// Seeding an empty pool beyond what the provider holds of either asset
/// fails with `InsufficientBalance`, whatever the two amounts are.
pub proof fn lemma_seeding_beyond_balance_fails(c: ProvideLiquidity, token_0_max: u64, token_1_max: u64)
    requires
        c.pool.is_empty(),
        c.user_token_0_balance < token_0_max || c.user_token_1_balance < token_1_max,
    ensures
        provide_outcome(c, token_0_max, token_1_max) == Err::<ProvideLiquidity, AmmError>(
            AmmError::InsufficientBalance,
        ),
{
}

/// A trade against a pool holding neither asset fails with `PoolNotSeeded`.
pub proof fn lemma_swap_on_empty_pool_fails(s: Swap, direction: SwapDirection, amount_in: u64)
    requires
        s.pool.is_empty(),
    ensures
        swap_outcome(s, direction, amount_in) == Err::<(Swap, u64), AmmError>(
            AmmError::PoolNotSeeded,
        ),
{
}

/// Pricing arithmetic behind the round trip: when `reserve_in + amount_in`
/// divides the product exactly, the trade back is priced at exactly the
/// input of the first trade.
pub proof fn lemma_exact_round_trip_quote(x: int, y: int, a: int)
    requires
        x > 0,
        y > 0,
        a >= 0,
        (x * y) % (x + a) == 0,
    ensures
        y - quote(x, y, a) > 0,
        quote(y - quote(x, y, a), x + a, quote(x, y, a)) == a,
{
    let k = x * y;
    let nx = x + a;
    let ny = k / nx;
    assert(ny * nx == k && ny > 0) by (nonlinear_arith)
        requires
            k == x * y,
            nx == x + a,
            ny == k / nx,
            k % nx == 0,
            x > 0,
            y > 0,
            a >= 0,
    {
        assert(k == nx * (k / nx) + k % nx);
    }
    assert(quote(x, y, a) == y - ny);
    assert(ny + (y - ny) == y);
    assert((ny * nx) / y == x) by (nonlinear_arith)
        requires
            ny * nx == x * y,
            y > 0,
    ;
}

/// A round trip does not profit: trading `amount_in` of asset 0 for asset 1
/// and at once trading the payout back leaves the pool able to trade back,
/// and pays back at most `amount_in`. This holds where `reserve_0 +
/// amount_in` divides the pool's product exactly; elsewhere the floor of the
/// first trade can round in the trader's favour.
pub proof fn lemma_round_trip_not_profitable(s: Swap, amount_in: u64)
    requires
        s.pool.is_seeded(),
        s.pool.product() % (s.pool.token_0_reserves + amount_in) == 0,
        swap_outcome(s, SwapDirection::Token0ToToken1, amount_in) is Ok,
    ensures
        ({
            let (s1, out) = swap_outcome(s, SwapDirection::Token0ToToken1, amount_in)->Ok_0;
            &&& s1.pool.is_seeded()
            &&& quote(s1.pool.token_1_reserves as int, s1.pool.token_0_reserves as int, out as int)
                <= amount_in
            &&& swap_outcome(s1, SwapDirection::Token1ToToken0, out) matches Ok((_, back)) ==> back
                <= amount_in
        }),
{
    let x = s.pool.token_0_reserves as int;
    let y = s.pool.token_1_reserves as int;
    lemma_exact_round_trip_quote(x, y, amount_in as int);
    lemma_quote_bounds(x, y, amount_in as int);
    let (s1, out) = swap_outcome(s, SwapDirection::Token0ToToken1, amount_in)->Ok_0;
    assert(out == quote(x, y, amount_in as int));
    assert(s1.pool.token_0_reserves == x + amount_in);
    assert(s1.pool.token_1_reserves == y - out);
}

/// Pricing arithmetic behind the round trip: when `reserve_in + amount_in`
/// does not divide the product, and the first trade leaves some of the output
/// asset, the trade back is priced above the input of the first trade.
pub proof fn lemma_inexact_round_trip_quote(x: int, y: int, a: int)
    requires
        x > 0,
        y > 0,
        a >= 0,
        (x * y) % (x + a) != 0,
        y - quote(x, y, a) > 0,
    ensures
        quote(y - quote(x, y, a), x + a, quote(x, y, a)) > a,
{
    let k = x * y;
    let nx = x + a;
    let ny = k / nx;
    assert(ny * nx < k && ny >= 0) by (nonlinear_arith)
        requires
            k == x * y,
            nx == x + a,
            ny == k / nx,
            k % nx != 0,
            x > 0,
            y > 0,
            a >= 0,
    {
        assert(k == nx * (k / nx) + k % nx);
        assert(0 <= k % nx);
    }
    assert(quote(x, y, a) == y - ny);
    assert(ny + (y - ny) == y);
    assert((ny * nx) / y < x) by (nonlinear_arith)
        requires
            ny * nx < x * y,
            ny * nx >= 0,
            y > 0,
    {
        assert((ny * nx) / y * y <= ny * nx);
    }
}

/// The round trip's boundary: where `reserve_0 + amount_in` does not divide
/// the pool's product and the first trade leaves the pool seeded, the floor of
/// the first trade rounds in the trader's favour and the trade back is priced
/// above `amount_in`.
pub proof fn lemma_round_trip_gains_on_inexact_division(s: Swap, amount_in: u64)
    requires
        s.pool.is_seeded(),
        s.pool.product() % (s.pool.token_0_reserves + amount_in) != 0,
        swap_outcome(s, SwapDirection::Token0ToToken1, amount_in) is Ok,
        swap_outcome(s, SwapDirection::Token0ToToken1, amount_in)->Ok_0.0.pool.is_seeded(),
    ensures
        ({
            let (s1, out) = swap_outcome(s, SwapDirection::Token0ToToken1, amount_in)->Ok_0;
            &&& quote(s1.pool.token_1_reserves as int, s1.pool.token_0_reserves as int, out as int)
                > amount_in
            &&& swap_outcome(s1, SwapDirection::Token1ToToken0, out) matches Ok((_, back)) ==> back
                > amount_in
        }),
{
    let x = s.pool.token_0_reserves as int;
    let y = s.pool.token_1_reserves as int;
    lemma_quote_bounds(x, y, amount_in as int);
    let (s1, out) = swap_outcome(s, SwapDirection::Token0ToToken1, amount_in)->Ok_0;
    assert(out == quote(x, y, amount_in as int));
    assert(s1.pool.token_0_reserves == x + amount_in);
    assert(s1.pool.token_1_reserves == y - out);
    lemma_inexact_round_trip_quote(x, y, amount_in as int);
    if swap_outcome(s1, SwapDirection::Token1ToToken0, out) is Ok {
        lemma_quote_bounds(y - out, x + amount_in, out as int);
    }
}

/// Trades see each other: the second of two trades is priced against the
/// reserves that the first one committed, not those it started from.
pub proof fn lemma_sequential_swaps_use_updated_reserves(
    s: Swap,
    first: SwapDirection,
    amount_1: u64,
    second: SwapDirection,
    amount_2: u64,
)
    requires
        swap_outcome(s, first, amount_1) is Ok,
    ensures
        ({
            let (s1, out_1) = swap_outcome(s, first, amount_1)->Ok_0;
            &&& legs_of(s1, first).reserve_in == legs_of(s, first).reserve_in + amount_1
            &&& legs_of(s1, first).reserve_out == legs_of(s, first).reserve_out - out_1
            &&& swap_outcome(s1, second, amount_2) matches Ok((_, out_2)) ==> out_2 == quote(
                legs_of(s1, second).reserve_in as int,
                legs_of(s1, second).reserve_out as int,
                amount_2 as int,
            )
        }),
{
    let (s1, out_1) = swap_outcome(s, first, amount_1)->Ok_0;
    let l = legs_of(s, first);
    let l1 = trade_outcome(l, amount_1, swap_authorized(s))->Ok_0.0;
    assert(s1 == with_legs(s, first, l1));
    assert(legs_of(s1, first) == l1);
    lemma_quote_bounds(l.reserve_in as int, l.reserve_out as int, amount_1 as int);
    if swap_outcome(s1, second, amount_2) is Ok {
        let m = legs_of(s1, second);
        let t = trade_outcome(m, amount_2, swap_authorized(s1));
        assert(t is Ok);
        assert(t->Ok_0.1 == quote(m.reserve_in as int, m.reserve_out as int, amount_2 as int)) by {
            lemma_quote_bounds(m.reserve_in as int, m.reserve_out as int, amount_2 as int);
        }
    }
}

/// The vaults mirror the reserves.
pub open spec fn swap_mirrors(s: Swap) -> bool {
    s.token_0_vault_balance == s.pool.token_0_reserves && s.token_1_vault_balance
        == s.pool.token_1_reserves
}

/// The vaults mirror the reserves.
pub open spec fn provide_mirrors(c: ProvideLiquidity) -> bool {
    c.token_0_vault_balance == c.pool.token_0_reserves && c.token_1_vault_balance
        == c.pool.token_1_reserves
}

/// Seeding keeps the vault balances equal to the reserves.
pub proof fn lemma_provide_keeps_vaults_mirrored(c: ProvideLiquidity, token_0_max: u64, token_1_max: u64)
    requires
        provide_mirrors(c),
        provide_outcome(c, token_0_max, token_1_max) is Ok,
    ensures
        provide_mirrors(provide_outcome(c, token_0_max, token_1_max)->Ok_0),
{
}

/// A trade keeps the vault balances equal to the reserves.
pub proof fn lemma_swap_keeps_vaults_mirrored(s: Swap, direction: SwapDirection, amount_in: u64)
    requires
        swap_mirrors(s),
        swap_outcome(s, direction, amount_in) is Ok,
    ensures
        swap_mirrors(swap_outcome(s, direction, amount_in)->Ok_0.0),
{
}

} // verus!

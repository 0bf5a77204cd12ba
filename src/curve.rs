//! Constant-product pricing.
use vstd::prelude::*;

verus! {

/// The amount paid out by a pool holding `reserve_in` of the input asset and
/// `reserve_out` of the output asset, for `amount_in` of the input asset:
/// `reserve_out - floor(reserve_in * reserve_out / (reserve_in + amount_in))`.
pub open spec fn quote(reserve_in: int, reserve_out: int, amount_in: int) -> int {
    reserve_out - (reserve_in * reserve_out) / (reserve_in + amount_in)
}

/// The payout never exceeds the output reserve and is never negative.
pub proof fn lemma_quote_bounds(reserve_in: int, reserve_out: int, amount_in: int)
    requires
        reserve_in > 0,
        reserve_out >= 0,
        amount_in >= 0,
    ensures
        0 <= quote(reserve_in, reserve_out, amount_in) <= reserve_out,
{
    let k = reserve_in * reserve_out;
    let d = reserve_in + amount_in;
    assert(k >= 0) by (nonlinear_arith)
        requires
            k == reserve_in * reserve_out,
            reserve_in > 0,
            reserve_out >= 0,
    ;
    assert(k / d >= 0) by (nonlinear_arith)
        requires
            k >= 0,
            d > 0,
    ;
    assert(k / d <= reserve_out) by (nonlinear_arith)
        requires
            k == reserve_in * reserve_out,
            d >= reserve_in,
            reserve_in > 0,
            reserve_out >= 0,
    {
        assert(k <= d * reserve_out);
        assert((d * reserve_out) / d == reserve_out);
    }
}

/// Computes `quote(reserve_in, reserve_out, amount_in)` with a 128-bit
/// intermediate product, so no step can overflow.
pub fn amount_out(reserve_in: u64, reserve_out: u64, amount_in: u64) -> (r: u64)
    requires
        reserve_in > 0,
    ensures
        r == quote(reserve_in as int, reserve_out as int, amount_in as int),
        r <= reserve_out,
{
    proof {
        lemma_quote_bounds(reserve_in as int, reserve_out as int, amount_in as int);
    }
    let x = reserve_in as u128;
    let y = reserve_out as u128;
    assert(x * y <= u64::MAX as int * u64::MAX as int) by (nonlinear_arith)
        requires
            x <= u64::MAX,
            y <= u64::MAX,
    ;
    let k: u128 = x * y;
    let new_x: u128 = x + amount_in as u128;
    let floor: u128 = k / new_x;
    let out: u128 = y - floor;
    out as u64
}

} // verus!

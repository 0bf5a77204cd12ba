//! The pool record, its identifiers and its errors.
use vstd::prelude::*;

verus! {

/// A 32-byte ledger address: an asset's mint, a program or a record.
pub type Address = [u8; 32];

/// The record of one asset pair: its two assets, what the pool holds of each,
/// and the bump that, with the two assets, derives the pool's own address.
#[derive(Clone, Copy, Debug, PartialEq, Eq)]
pub struct Pool {
    pub token_0: Address,
    pub token_1: Address,
    pub token_0_reserves: u64,
    pub token_1_reserves: u64,
    pub pda_bump: u8,
}

/// Which asset a trade takes in; the other one is paid out.
#[derive(Clone, Copy, Debug, PartialEq, Eq, Structural)]
pub enum SwapDirection {
    Token0ToToken1,
    Token1ToToken0,
}

/// Why an operation failed. A failed operation changes nothing.
#[derive(Clone, Copy, Debug, PartialEq, Eq, Structural)]
pub enum AmmError {
    /// The two assets of a new pool are the same.
    MatchingAssets,
    /// A trade was asked of a pool that does not hold both assets.
    PoolNotSeeded,
    /// A balance is smaller than the amount to be taken from it.
    InsufficientBalance,
    /// A balance or a reserve would exceed 64 bits.
    ArithmeticOverflow,
    /// Seeding was asked with one amount zero and the other not.
    OneSidedLiquidity,
    /// The pool's stored derivation parameters do not give the pool's address.
    InvalidAuthority,
}

impl Pool {
    /// The pool holds neither asset.
    pub open spec fn is_empty(self) -> bool {
        self.token_0_reserves == 0 && self.token_1_reserves == 0
    }

    /// The pool holds some of both assets, so it can price a trade.
    pub open spec fn is_seeded(self) -> bool {
        self.token_0_reserves > 0 && self.token_1_reserves > 0
    }

    /// The constant product `k`.
    pub open spec fn product(self) -> int {
        self.token_0_reserves * self.token_1_reserves
    }
}

/// Compares two addresses byte by byte.
pub fn same_address(a: &Address, b: &Address) -> (r: bool)
    ensures
        r == (a@ == b@),
{
    let mut i: usize = 0;
    while i < 32
        invariant
            0 <= i <= 32,
            forall|j: int| 0 <= j < i ==> a@[j] == b@[j],
        decreases 32 - i,
    {
        if a[i] != b[i] {
            assert(a@[i as int] != b@[i as int]);
            return false;
        }
        i = i + 1;
    }
    assert(a@ =~= b@);
    true
}

} // verus!

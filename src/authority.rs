//! The pool's self-owned custody authority: an address with no private key,
//! derived from the asset pair and the stored bump.
use vstd::prelude::*;
use crate::pool::{Address, Pool};
use anchor_lang::solana_program::pubkey::Pubkey;

verus! {

/// The address that the ledger derives from `seeds` under the program
/// `program_id`, or `None` where the seeds give no valid derived address.
pub uninterp spec fn program_address_of(seeds: Seq<Seq<u8>>, program_id: Seq<u8>) -> Option<
    Seq<u8>,
>;

/// The bytes of an optional address.
pub open spec fn opt_bytes(a: Option<Address>) -> Option<Seq<u8>> {
    match a {
        Some(x) => Some(x@),
        None => None,
    }
}

/// The first seed of every pool address: the ASCII text `pool`.
pub open spec fn pool_seed_prefix() -> Seq<u8> {
    seq![0x70u8, 0x6fu8, 0x6fu8, 0x6cu8]
}

/// The seeds of the pool of `token_0` and `token_1` with the given bump.
pub open spec fn pool_seeds(token_0: Seq<u8>, token_1: Seq<u8>, bump: u8) -> Seq<Seq<u8>> {
    seq![pool_seed_prefix(), token_0, token_1, seq![bump]]
}

/// The pool's authority address, where the derivation gives one.
pub open spec fn pool_authority(pool: Pool, program_id: Seq<u8>) -> Option<Seq<u8>> {
    program_address_of(pool_seeds(pool.token_0@, pool.token_1@, pool.pda_bump), program_id)
}

/// Relies on solana_program's `Pubkey::create_program_address`: the derived
/// address is a function of the seeds and the program id alone.
#[verifier::external_body]
fn create_program_address(
    prefix: &[u8; 4],
    token_0: &Address,
    token_1: &Address,
    bump: u8,
    program_id: &Address,
) -> (r: Option<Address>)
    ensures
        opt_bytes(r) == program_address_of(
            seq![prefix@, token_0@, token_1@, seq![bump]],
            program_id@,
        ),
{
    let seeds: [&[u8]; 4] = [prefix, token_0, token_1, &[bump]];
    let program = Pubkey::new_from_array(*program_id);
    Pubkey::create_program_address(&seeds, &program).ok().map(|k| k.to_bytes())
}

/// Derives the custody authority of the pool of `token_0` and `token_1` with
/// the given bump, under the program `program_id`.
pub fn derive_authority(program_id: &Address, token_0: &Address, token_1: &Address, bump: u8) -> (r:
    Option<Address>)
    ensures
        opt_bytes(r) == program_address_of(pool_seeds(token_0@, token_1@, bump), program_id@),
{
    let prefix: [u8; 4] = [0x70, 0x6f, 0x6f, 0x6c];
    assert(prefix@ =~= pool_seed_prefix());
    create_program_address(&prefix, token_0, token_1, bump, program_id)
}

impl Pool {
    /// Whether the pool's stored assets and bump derive exactly `pool_address`;
    /// only then may the pool sign for its vaults.
    pub fn authorizes(&self, program_id: &Address, pool_address: &Address) -> (r: bool)
        ensures
            r == (pool_authority(*self, program_id@) == Some(pool_address@)),
    {
        match derive_authority(program_id, &self.token_0, &self.token_1, self.pda_bump) {
            Some(a) => crate::pool::same_address(&a, pool_address),
            None => false,
        }
    }
}

} // verus!

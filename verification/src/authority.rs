//! Derivation of program-controlled addresses.
//!
//! A program-controlled address has no private key. The ledger derives it from
//! a list of seeds and the owning program's address, together with a one-byte
//! bump that makes the result fall outside the set of ordinary key addresses.
//! Only the owning program can co-sign as such an address.

use crate::address::Address;
use crate::error::MintError;
use anchor_lang::prelude::Pubkey;
use vstd::prelude::*;

verus! {

/// The program address and bump that the ledger derives from `seeds` for the
/// program at `program_id`, or `None` where no bump yields one. It depends on
/// nothing but its two arguments: every node computes the same value.
pub uninterp spec fn program_address(seeds: Seq<Seq<u8>>, program_id: Seq<u8>) -> Option<(Seq<u8>, u8)>;

/// The seeds of a derivation as sequences of bytes.
pub open spec fn seeds_view(seeds: Seq<Vec<u8>>) -> Seq<Seq<u8>> {
    Seq::new(seeds.len(), |i: int| seeds[i]@)
}

/// The seed of the authority that signs for the token program's mints: the
/// ASCII text `nft_authority`.
pub open spec fn nft_authority_seed() -> Seq<u8> {
    seq![110u8, 102u8, 116u8, 95u8, 97u8, 117u8, 116u8, 104u8, 111u8, 114u8, 105u8, 116u8, 121u8]
}

/// A program-controlled address with the bump that completes its seeds.
#[derive(Clone, Copy, Debug, PartialEq, Eq)]
pub struct ProgramAuthority {
    pub address: Address,
    pub bump: u8,
}

impl ProgramAuthority {
    /// Whether this is what the ledger derives from `seeds` under `program_id`.
    pub open spec fn derived_from(self, seeds: Seq<Seq<u8>>, program_id: Seq<u8>) -> bool {
        program_address(seeds, program_id) == Some((self.address@, self.bump))
    }
}

/// Calls `Pubkey::try_find_program_address`, which tries the bumps from 255
/// downwards and returns the first address that is not a valid curve point,
/// with its bump, or `None` when every bump fails or a seed is too long.
#[verifier::external_body]
fn try_find_program_address(seeds: &Vec<Vec<u8>>, program_id: &Address) -> (r: Option<
    ProgramAuthority,
>)
    ensures
        match r {
            Some(a) => a.derived_from(seeds_view(seeds@), program_id@),
            None => program_address(seeds_view(seeds@), program_id@) is None,
        },
{
    let slices: Vec<&[u8]> = seeds.iter().map(|s| s.as_slice()).collect();
    Pubkey::try_find_program_address(&slices, &Pubkey::new_from_array(program_id.bytes)).map(
        |(key, bump)| ProgramAuthority { address: Address { bytes: key.to_bytes() }, bump },
    )
}

/// Derives the program-controlled address for `seeds` under `program_id`.
///
/// The result is a function of the arguments alone. It is
/// [`MintError::NoProgramAddress`] exactly when the ledger derives none.
pub fn find_program_address(seeds: &Vec<Vec<u8>>, program_id: &Address) -> (r: Result<
    ProgramAuthority,
    MintError,
>)
    ensures
        match r {
            Ok(a) => a.derived_from(seeds_view(seeds@), program_id@),
            Err(MintError::NoProgramAddress) => program_address(seeds_view(seeds@), program_id@)
                is None,
            Err(_) => false,
        },
{
    match try_find_program_address(seeds, program_id) {
        Some(a) => Ok(a),
        None => Err(MintError::NoProgramAddress),
    }
}

/// The authority seed as owned bytes.
pub fn authority_seed() -> (seed: Vec<u8>)
    ensures
        seed@ == nft_authority_seed(),
{
    let seed: Vec<u8> = vec![
        110u8, 102u8, 116u8, 95u8, 97u8, 117u8, 116u8, 104u8, 111u8, 114u8, 105u8, 116u8, 121u8,
    ];
    assert(seed@ =~= nft_authority_seed());
    seed
}

/// Derives the authority that signs for the mints of the program at
/// `program_id`, from the fixed seed alone.
pub fn derive_authority(program_id: &Address) -> (r: Result<ProgramAuthority, MintError>)
    ensures
        match r {
            Ok(a) => a.derived_from(seq![nft_authority_seed()], program_id@),
            Err(MintError::NoProgramAddress) => program_address(
                seq![nft_authority_seed()],
                program_id@,
            ) is None,
            Err(_) => false,
        },
{
    let mut seeds: Vec<Vec<u8>> = Vec::new();
    seeds.push(authority_seed());
    assert(seeds_view(seeds@) =~= seq![nft_authority_seed()]);
    find_program_address(&seeds, program_id)
}

/// Derivation is deterministic: two authorities derived from the same seeds
/// under the same program have the same address and the same bump.
pub proof fn lemma_derivation_deterministic(
    seeds: Seq<Seq<u8>>,
    program_id: Seq<u8>,
    first: ProgramAuthority,
    second: ProgramAuthority,
)
    requires
        first.derived_from(seeds, program_id),
        second.derived_from(seeds, program_id),
    ensures
        first.address@ == second.address@,
        first.bump == second.bump,
        first == second,
{
    assert(first.address.bytes =~= second.address.bytes);
}

} // verus!

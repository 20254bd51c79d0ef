//! Failure reasons of the minting logic.

use anchor_lang::solana_program::program_error::ProgramError;
use vstd::prelude::*;

verus! {

/// The ledger runtime's error value, carried through unchanged.
#[verifier::external_type_specification]
#[verifier::external_body]
pub struct ExProgramError(ProgramError);

/// Why a mint could not be prepared. Every variant is raised before any
/// account is touched.
#[derive(Debug)]
pub enum MintError {
    /// The program authority account is the all-zero address, which cannot
    /// serve as a metadata update authority.
    ZeroAuthority(ProgramError),
    /// No bump yields a valid program address for the authority seed.
    NoProgramAddress,
    /// The supplied account is not the address derived from its seeds.
    AddressMismatch,
    /// The metadata payload is longer than this machine can count.
    PayloadTooLarge,
    /// The serializer cannot represent the metadata payload.
    Unserializable(ProgramError),
    /// The token program's layout rules reject the extension set.
    AccountLength(ProgramError),
}

} // verus!

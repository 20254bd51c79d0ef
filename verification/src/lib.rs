//! Orchestration logic for minting non-fungible tokens on a ledger: account
//! sizing, program-authority derivation and the ordered step sequences of the
//! two minting pipelines.

pub mod address;
pub mod authority;
pub mod context;
pub mod error;
pub mod instruction;
pub mod metadata;
pub mod metaplex_nft;
pub mod record;
pub mod shenqi_box;
pub mod token_2022_nft;

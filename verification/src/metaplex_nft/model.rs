//! What a mint is, mathematically: the values of the run's types, the
//! decisions of its preparation and the course of a run.

use super::{Collection, Creator, EditionRecord, MintNFT, Stage, Uses};
use crate::address::Address;
use crate::authority::program_address;
use crate::context::Context;
use vstd::prelude::*;

verus! {

/// Mathematical value of a [`DataV2`].
pub struct DataV2View {
    pub name: Seq<char>,
    pub symbol: Seq<char>,
    pub uri: Seq<char>,
    pub seller_fee_basis_points: u16,
    pub creators: Option<Seq<Creator>>,
    pub collection: Option<Collection>,
    pub uses: Option<Uses>,
}

/// Mathematical value of an [`Action`].
pub enum ActionView {
    MintTo { mint: Address, to: Address, authority: Address, amount: u64 },
    CreateMetadataAccountsV3 {
        metadata: Address,
        mint: Address,
        mint_authority: Address,
        update_authority: Address,
        payer: Address,
        system_program: Address,
        rent: Address,
        data: DataV2View,
        is_mutable: bool,
        update_authority_is_signer: bool,
        collection_details: Option<u64>,
    },
    CreateMasterEditionV3 {
        edition: Address,
        mint: Address,
        update_authority: Address,
        mint_authority: Address,
        payer: Address,
        metadata: Address,
        token_program: Address,
        system_program: Address,
        rent: Address,
        max_supply: Option<u64>,
    },
}

/// Mathematical value of a [`Receipt`].
pub struct ReceiptView {
    pub issued: u64,
    pub metadata_address: Address,
    pub mint: Address,
    pub update_authority: Address,
    pub data: DataV2View,
    pub is_mutable: bool,
    pub edition: EditionRecord,
}

/// The ASCII text `metadata`, first seed of both records' addresses.
pub open spec fn metadata_seed() -> Seq<u8> {
    seq![109u8, 101u8, 116u8, 97u8, 100u8, 97u8, 116u8, 97u8]
}

/// The ASCII text `edition`, last seed of the master edition's address.
pub open spec fn edition_seed() -> Seq<u8> {
    seq![101u8, 100u8, 105u8, 116u8, 105u8, 111u8, 110u8]
}

/// The seeds of a mint's metadata record.
pub open spec fn metadata_seeds(accounts: MintNFT) -> Seq<Seq<u8>> {
    seq![metadata_seed(), accounts.token_metadata_program@, accounts.mint_account@]
}

/// The seeds of a mint's master edition record.
pub open spec fn edition_seeds(accounts: MintNFT) -> Seq<Seq<u8>> {
    seq![metadata_seed(), accounts.token_metadata_program@, accounts.mint_account@, edition_seed()]
}

/// The content of a new token's metadata record: the supplied strings, no
/// resale fee, no creators, no collection, no uses.
pub open spec fn record_data(name: Seq<char>, symbol: Seq<char>, uri: Seq<char>) -> DataV2View {
    DataV2View {
        name,
        symbol,
        uri,
        seller_fee_basis_points: 0,
        creators: None,
        collection: None,
        uses: None,
    }
}

/// Mathematical value of a [`Minting`]: a run and the step it waits for.
pub struct MintingView {
    pub accounts: MintNFT,
    pub data: DataV2View,
    pub stage: Stage,
}

/// How a run goes on after a step.
pub enum ProgressView<E> {
    /// The run waits for the next step's action.
    Next(MintingView, ActionView),
    /// Every step succeeded.
    Done(ReceiptView),
    /// The run is over; the ledger discards what the steps did.
    Failed(Stage, E),
}

/// How the preparation of a run ends.
pub enum Preparing {
    Ready(MintingView),
    NoProgramAddress,
    AddressMismatch,
}

/// What [`mint_nft`] decides: both record accounts must be the addresses that
/// the ledger derives for the mint under the metadata program, the metadata
/// record's first.
pub open spec fn preparing(
    ctx: Context<MintNFT>,
    name: Seq<char>,
    symbol: Seq<char>,
    uri: Seq<char>,
) -> Preparing {
    let a = ctx.accounts;
    match program_address(metadata_seeds(a), a.token_metadata_program@) {
        None => Preparing::NoProgramAddress,
        Some((metadata, _)) => if metadata != a.metadata_account@ {
            Preparing::AddressMismatch
        } else {
            match program_address(edition_seeds(a), a.token_metadata_program@) {
                None => Preparing::NoProgramAddress,
                Some((edition, _)) => if edition != a.edition_account@ {
                    Preparing::AddressMismatch
                } else {
                    Preparing::Ready(
                        MintingView {
                            accounts: a,
                            data: record_data(name, symbol, uri),
                            stage: Stage::Mint,
                        },
                    )
                },
            }
        },
    }
}

impl MintingView {
    /// The same run at another step.
    pub open spec fn at(self, stage: Stage) -> MintingView {
        MintingView { stage, ..self }
    }

    /// The action of the step that the run waits for. The signer is the
    /// mint's authority, the records' update authority and the payer. The
    /// master edition is created with a supply of zero further editions, so
    /// that the token cannot be reproduced.
    pub open spec fn action(self) -> ActionView {
        let a = self.accounts;
        match self.stage {
            Stage::Mint => ActionView::MintTo {
                mint: a.mint_account,
                to: a.associated_token_account,
                authority: a.signer,
                amount: 1,
            },
            Stage::CreateMetadata => ActionView::CreateMetadataAccountsV3 {
                metadata: a.metadata_account,
                mint: a.mint_account,
                mint_authority: a.signer,
                update_authority: a.signer,
                payer: a.signer,
                system_program: a.system_program,
                rent: a.rent,
                data: self.data,
                is_mutable: false,
                update_authority_is_signer: true,
                collection_details: None,
            },
            Stage::CreateMasterEdition => ActionView::CreateMasterEditionV3 {
                edition: a.edition_account,
                mint: a.mint_account,
                update_authority: a.signer,
                mint_authority: a.signer,
                payer: a.signer,
                metadata: a.metadata_account,
                token_program: a.token_program,
                system_program: a.system_program,
                rent: a.rent,
                max_supply: Some(0),
            },
        }
    }

    /// Units issued by the steps before the awaited one.
    pub open spec fn issued(self) -> u64 {
        match self.stage {
            Stage::Mint => 0,
            _ => 1,
        }
    }

    /// What the ledger holds once every step has succeeded: one unit, the
    /// metadata record, and a master edition of which no edition can be
    /// printed.
    pub open spec fn receipt(self) -> ReceiptView {
        ReceiptView {
            issued: 1,
            metadata_address: self.accounts.metadata_account,
            mint: self.accounts.mint_account,
            update_authority: self.accounts.signer,
            data: self.data,
            is_mutable: false,
            edition: EditionRecord {
                address: self.accounts.edition_account,
                mint: self.accounts.mint_account,
                max_supply: Some(0),
            },
        }
    }

    /// How the run goes on when the host reports `outcome` for the awaited
    /// step: a failure ends it there, a success moves it to the next step or
    /// completes it after the last.
    pub open spec fn advance<E>(self, outcome: Result<(), E>) -> ProgressView<E> {
        match outcome {
            Err(e) => ProgressView::Failed(self.stage, e),
            Ok(_) => match self.stage.spec_next() {
                None => ProgressView::Done(self.receipt()),
                Some(s) => ProgressView::Next(self.at(s), self.at(s).action()),
            },
        }
    }

}

} // verus!

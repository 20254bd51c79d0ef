//! Minting a token whose metadata and master edition are records of their own,
//! kept by a separate metadata program.
//!
//! The mint and the recipient's holding exist before the run. [`mint_nft`]
//! checks that the two records' accounts are the addresses that the ledger
//! derives for the mint, and names the first action. The host performs one
//! [`Action`] at a time and reports how it went to [`Minting::advance`].

pub mod laws;
pub mod model;

use crate::address::Address;
use crate::authority::{find_program_address, seeds_view};
use crate::context::{greeting, spec_greeting, Context};
use crate::error::MintError;
use model::{
    edition_seed, edition_seeds, metadata_seed, metadata_seeds, preparing, ActionView, DataV2View,
    MintingView, Preparing, ProgressView, ReceiptView,
};
use vstd::prelude::*;

verus! {

/// The accounts of the diagnostic entry point: none.
#[derive(Clone, Copy, Debug, PartialEq, Eq)]
pub struct Initialize {}

/// The accounts of one mint.
#[derive(Clone, Copy, Debug, PartialEq, Eq)]
pub struct MintNFT {
    /// Who pays, holds the mint's authorities and receives the token.
    pub signer: Address,
    /// The mint: zero decimal places, nothing issued yet.
    pub mint_account: Address,
    /// The recipient's holding account for this mint.
    pub associated_token_account: Address,
    /// Where the metadata record goes.
    pub metadata_account: Address,
    /// Where the master edition record goes.
    pub edition_account: Address,
    pub token_program: Address,
    pub associated_token_program: Address,
    pub token_metadata_program: Address,
    pub system_program: Address,
    pub rent: Address,
}

/// Someone with a share in a token's resale fee.
#[derive(Clone, Copy, Debug, PartialEq, Eq)]
pub struct Creator {
    pub address: Address,
    pub verified: bool,
    pub share: u8,
}

/// The collection that a token belongs to.
#[derive(Clone, Copy, Debug, PartialEq, Eq)]
pub struct Collection {
    pub verified: bool,
    pub key: Address,
}

/// How a token's uses are counted.
#[derive(Clone, Copy, Debug, PartialEq, Eq, Structural)]
pub enum UseMethod {
    Burn,
    Multiple,
    Single,
}

/// A limit on how often a token can be used.
#[derive(Clone, Copy, Debug, PartialEq, Eq)]
pub struct Uses {
    pub use_method: UseMethod,
    pub remaining: u64,
    pub total: u64,
}

/// The content of a metadata record.
#[derive(Clone, Debug, PartialEq, Eq)]
pub struct DataV2 {
    pub name: String,
    pub symbol: String,
    pub uri: String,
    /// Resale fee in hundredths of a percent.
    pub seller_fee_basis_points: u16,
    pub creators: Option<Vec<Creator>>,
    pub collection: Option<Collection>,
    pub uses: Option<Uses>,
}

impl View for DataV2 {
    type V = DataV2View;

    open spec fn view(&self) -> DataV2View {
        DataV2View {
            name: self.name@,
            symbol: self.symbol@,
            uri: self.uri@,
            seller_fee_basis_points: self.seller_fee_basis_points,
            creators: match self.creators {
                Some(c) => Some(c@),
                None => None,
            },
            collection: self.collection,
            uses: self.uses,
        }
    }
}

/// The steps that the host performs, in their order.
#[derive(Clone, Copy, Debug, PartialEq, Eq, Structural)]
pub enum Stage {
    /// Issue the one unit.
    Mint,
    /// Create the metadata record.
    CreateMetadata,
    /// Create the master edition record.
    CreateMasterEdition,
}

/// What the host is to do next.
#[derive(Clone, Debug, PartialEq, Eq)]
pub enum Action {
    /// Issue `amount` units of `mint` into `to`, signed by `authority`.
    MintTo { mint: Address, to: Address, authority: Address, amount: u64 },
    /// Have the metadata program create the metadata record.
    CreateMetadataAccountsV3 {
        metadata: Address,
        mint: Address,
        mint_authority: Address,
        update_authority: Address,
        payer: Address,
        system_program: Address,
        rent: Address,
        data: DataV2,
        is_mutable: bool,
        update_authority_is_signer: bool,
        /// Size of the collection that the token heads, if it heads one.
        collection_details: Option<u64>,
    },
    /// Have the metadata program create the master edition record, with
    /// `max_supply` as the number of editions that may ever be printed.
    CreateMasterEditionV3 {
        edition: Address,
        mint: Address,
        update_authority: Address,
        mint_authority: Address,
        payer: Address,
        metadata: Address,
        token_program: Address,
        system_program: Address,
        rent: Address,
        max_supply: Option<u64>,
    },
}

impl View for Action {
    type V = ActionView;

    open spec fn view(&self) -> ActionView {
        match self {
            Action::MintTo { mint, to, authority, amount } => ActionView::MintTo {
                mint: *mint,
                to: *to,
                authority: *authority,
                amount: *amount,
            },
            Action::CreateMetadataAccountsV3 {
                metadata,
                mint,
                mint_authority,
                update_authority,
                payer,
                system_program,
                rent,
                data,
                is_mutable,
                update_authority_is_signer,
                collection_details,
            } => ActionView::CreateMetadataAccountsV3 {
                metadata: *metadata,
                mint: *mint,
                mint_authority: *mint_authority,
                update_authority: *update_authority,
                payer: *payer,
                system_program: *system_program,
                rent: *rent,
                data: data@,
                is_mutable: *is_mutable,
                update_authority_is_signer: *update_authority_is_signer,
                collection_details: *collection_details,
            },
            Action::CreateMasterEditionV3 {
                edition,
                mint,
                update_authority,
                mint_authority,
                payer,
                metadata,
                token_program,
                system_program,
                rent,
                max_supply,
            } => ActionView::CreateMasterEditionV3 {
                edition: *edition,
                mint: *mint,
                update_authority: *update_authority,
                mint_authority: *mint_authority,
                payer: *payer,
                metadata: *metadata,
                token_program: *token_program,
                system_program: *system_program,
                rent: *rent,
                max_supply: *max_supply,
            },
        }
    }
}

/// The metadata record that a completed run leaves.
#[derive(Clone, Debug, PartialEq, Eq)]
pub struct MetadataRecord {
    pub address: Address,
    pub mint: Address,
    pub update_authority: Address,
    pub data: DataV2,
    pub is_mutable: bool,
}

/// The master edition record that a completed run leaves.
#[derive(Clone, Copy, Debug, PartialEq, Eq)]
pub struct EditionRecord {
    pub address: Address,
    pub mint: Address,
    /// How many editions may ever be printed; `None` sets no limit.
    pub max_supply: Option<u64>,
}

/// What a completed run leaves on the ledger.
#[derive(Clone, Debug, PartialEq, Eq)]
pub struct Receipt {
    /// Units issued into the recipient's holding.
    pub issued: u64,
    pub metadata: MetadataRecord,
    pub edition: EditionRecord,
}

impl View for Receipt {
    type V = ReceiptView;

    open spec fn view(&self) -> ReceiptView {
        ReceiptView {
            issued: self.issued,
            metadata_address: self.metadata.address,
            mint: self.metadata.mint,
            update_authority: self.metadata.update_authority,
            data: self.metadata.data@,
            is_mutable: self.metadata.is_mutable,
            edition: self.edition,
        }
    }
}

/// A run that ended early: the step that the host reported as failed, and
/// the host's reason.
#[derive(Debug)]
pub struct Failure<E> {
    pub stage: Stage,
    pub reason: E,
}

impl Stage {
    /// The step after this one, or `None` after the last.
    pub open spec fn spec_next(self) -> Option<Stage> {
        match self {
            Stage::Mint => Some(Stage::CreateMetadata),
            Stage::CreateMetadata => Some(Stage::CreateMasterEdition),
            Stage::CreateMasterEdition => None,
        }
    }

    /// The step after this one, or `None` after the last.
    pub fn next(self) -> (r: Option<Stage>)
        ensures
            r == self.spec_next(),
    {
        match self {
            Stage::Mint => Some(Stage::CreateMetadata),
            Stage::CreateMetadata => Some(Stage::CreateMasterEdition),
            Stage::CreateMasterEdition => None,
        }
    }
}

/// A run in progress: the mint's accounts, the content of its metadata
/// record, and the step whose outcome the run waits for.
#[derive(Debug)]
pub struct Minting {
    accounts: MintNFT,
    data: DataV2,
    stage: Stage,
}

impl View for Minting {
    type V = MintingView;

    closed spec fn view(&self) -> MintingView {
        MintingView { accounts: self.accounts, data: self.data@, stage: self.stage }
    }
}

/// How a run goes on after a step.
#[derive(Debug)]
pub enum Progress<E> {
    /// Perform the action, then report its outcome to the run.
    Next(Minting, Action),
    /// Every step succeeded: the ledger holds what the receipt describes.
    Done(Receipt),
    /// The run is over and the transaction must fail.
    Failed(Failure<E>),
}

impl<E> View for Progress<E> {
    type V = ProgressView<E>;

    open spec fn view(&self) -> ProgressView<E> {
        match self {
            Progress::Next(m, a) => ProgressView::Next(m@, a@),
            Progress::Done(r) => ProgressView::Done(r@),
            Progress::Failed(f) => ProgressView::Failed(f.stage, f.reason),
        }
    }
}

/// Changes nothing; returns the line for the host to log.
pub fn initialize(ctx: Context<Initialize>) -> (line: String)
    ensures
        line@ == spec_greeting(ctx.program_id),
{
    greeting(&ctx.program_id)
}

/// The seed `metadata` as owned bytes.
fn metadata_seed_bytes() -> (seed: Vec<u8>)
    ensures
        seed@ == metadata_seed(),
{
    let seed: Vec<u8> = vec![109u8, 101u8, 116u8, 97u8, 100u8, 97u8, 116u8, 97u8];
    assert(seed@ =~= metadata_seed());
    seed
}

/// The seed `edition` as owned bytes.
fn edition_seed_bytes() -> (seed: Vec<u8>)
    ensures
        seed@ == edition_seed(),
{
    let seed: Vec<u8> = vec![101u8, 100u8, 105u8, 116u8, 105u8, 111u8, 110u8];
    assert(seed@ =~= edition_seed());
    seed
}

/// Checks the record accounts of a new token and starts its run.
///
/// Nothing on the ledger is touched. The result is what [`preparing`] decides
/// for the arguments; on success the first action is that of the first step.
pub fn mint_nft(ctx: Context<MintNFT>, name: String, symbol: String, uri: String) -> (r: Result<
    (Minting, Action),
    MintError,
>)
    ensures
        match r {
            Ok((m, a)) => preparing(ctx, name@, symbol@, uri@) == Preparing::Ready(m@) && a@
                == m@.action(),
            Err(MintError::NoProgramAddress) => preparing(ctx, name@, symbol@, uri@)
                is NoProgramAddress,
            Err(MintError::AddressMismatch) => preparing(ctx, name@, symbol@, uri@)
                is AddressMismatch,
            Err(_) => false,
        },
{
    let accounts = ctx.accounts;
    let mut seeds: Vec<Vec<u8>> = Vec::new();
    seeds.push(metadata_seed_bytes());
    seeds.push(accounts.token_metadata_program.to_vec());
    seeds.push(accounts.mint_account.to_vec());
    assert(seeds_view(seeds@) =~= metadata_seeds(accounts));
    let metadata = match find_program_address(&seeds, &accounts.token_metadata_program) {
        Ok(a) => a,
        Err(e) => {
            return Err(e);
        },
    };
    if !metadata.address.same(&accounts.metadata_account) {
        return Err(MintError::AddressMismatch);
    }
    seeds.push(edition_seed_bytes());
    assert(seeds_view(seeds@) =~= edition_seeds(accounts));
    let edition = match find_program_address(&seeds, &accounts.token_metadata_program) {
        Ok(a) => a,
        Err(e) => {
            return Err(e);
        },
    };
    if !edition.address.same(&accounts.edition_account) {
        return Err(MintError::AddressMismatch);
    }
    let data = DataV2 {
        name,
        symbol,
        uri,
        seller_fee_basis_points: 0,
        creators: None,
        collection: None,
        uses: None,
    };
    let minting = Minting { accounts, data, stage: Stage::Mint };
    let action = minting.build();
    Ok((minting, action))
}

impl Minting {
    /// The step whose outcome the run waits for.
    pub fn stage(&self) -> (s: Stage)
        ensures
            s == self@.stage,
    {
        self.stage
    }

    /// Units issued by the steps so far.
    pub fn issued(&self) -> (n: u64)
        ensures
            n == self@.issued(),
    {
        match self.stage {
            Stage::Mint => 0,
            _ => 1,
        }
    }

    /// A copy of the metadata record's content.
    fn data(&self) -> (d: DataV2)
        ensures
            d@ == self@.data,
    {
        DataV2 {
            name: self.data.name.clone(),
            symbol: self.data.symbol.clone(),
            uri: self.data.uri.clone(),
            seller_fee_basis_points: self.data.seller_fee_basis_points,
            creators: match &self.data.creators {
                Some(c) => Some(c.clone()),
                None => None,
            },
            collection: self.data.collection,
            uses: self.data.uses,
        }
    }

    /// Builds the action of the awaited step.
    fn build(&self) -> (a: Action)
        ensures
            a@ == self@.action(),
    {
        let a = &self.accounts;
        match self.stage {
            Stage::Mint => Action::MintTo {
                mint: a.mint_account,
                to: a.associated_token_account,
                authority: a.signer,
                amount: 1,
            },
            Stage::CreateMetadata => Action::CreateMetadataAccountsV3 {
                metadata: a.metadata_account,
                mint: a.mint_account,
                mint_authority: a.signer,
                update_authority: a.signer,
                payer: a.signer,
                system_program: a.system_program,
                rent: a.rent,
                data: self.data(),
                is_mutable: false,
                update_authority_is_signer: true,
                collection_details: None,
            },
            Stage::CreateMasterEdition => Action::CreateMasterEditionV3 {
                edition: a.edition_account,
                mint: a.mint_account,
                update_authority: a.signer,
                mint_authority: a.signer,
                payer: a.signer,
                metadata: a.metadata_account,
                token_program: a.token_program,
                system_program: a.system_program,
                rent: a.rent,
                max_supply: Some(0),
            },
        }
    }

    /// Takes the outcome of the awaited step and says how the run goes on:
    /// exactly as [`MintingView::advance`] describes.
    pub fn advance<E>(self, outcome: Result<(), E>) -> (r: Progress<E>)
        ensures
            r@ == self@.advance(outcome),
    {
        if let Err(reason) = outcome {
            return Progress::Failed(Failure { stage: self.stage, reason });
        }
        match self.stage.next() {
            None => Progress::Done(
                Receipt {
                    issued: 1,
                    metadata: MetadataRecord {
                        address: self.accounts.metadata_account,
                        mint: self.accounts.mint_account,
                        update_authority: self.accounts.signer,
                        data: self.data,
                        is_mutable: false,
                    },
                    edition: EditionRecord {
                        address: self.accounts.edition_account,
                        mint: self.accounts.mint_account,
                        max_supply: Some(0),
                    },
                },
            ),
            Some(stage) => {
                let next = Minting { accounts: self.accounts, data: self.data, stage };
                let action = next.build();
                Progress::Next(next, action)
            },
        }
    }
}

} // verus!

//! Minting a token whose metadata lives inside its own mint account.
//!
//! [`mint_nft`] sizes the account. The host then asks the ledger for the
//! balance that keeps an account of that size alive and calls
//! [`SizedMint::reserve`], which starts the run. From there on the host performs
//! one [`Action`] at a time and reports how it went to [`Minting::advance`],
//! which names the next action, the completed token or the failure. The ledger
//! commits the host's transaction only if every action succeeded, so a failed
//! run leaves nothing behind.

pub mod laws;
pub mod model;

use crate::address::Address;
use crate::authority::{authority_seed, derive_authority};
use crate::context::{greeting, spec_greeting, Context};
use crate::error::MintError;
use crate::instruction::{
    build_metadata_initialize, build_metadata_update_field, build_pointer_initialize,
    check_non_zero, mint_with_pointer_len, token_2022_program_id, Instruction,
};
use crate::metadata::TokenMetadata;
use crate::record::{HoldingRecord, MintRecord};
use anchor_lang::solana_program::program_error::ProgramError;
use model::{
    payload, sizing, ActionView, CauseView, MintingView, NftMetadataUpdatedView, ProgressView,
    ReceiptView, SignerSeedsView, SizedView, Sizing,
};
use vstd::prelude::*;

verus! {

/// Bytes reserved for the authority account: its 8-byte tag and no data.
pub const NFT_AUTHORITY_SPACE: usize = 8;

/// The data of the program-controlled authority account. It holds nothing:
/// the account exists to sign.
#[derive(Clone, Copy, Debug, PartialEq, Eq)]
pub struct NftAuthority {}

/// The accounts of the diagnostic entry point: none.
#[derive(Clone, Copy, Debug, PartialEq, Eq)]
pub struct Initialize {}

/// The accounts of one mint.
#[derive(Clone, Copy, Debug, PartialEq, Eq)]
pub struct MintNft {
    /// Who pays for the mint and receives the token.
    pub signer: Address,
    /// The new mint account; it does not exist before the run.
    pub mint: Address,
    /// The recipient's holding account for this mint.
    pub token_account: Address,
    /// The program-controlled authority over the mint and its metadata.
    pub nft_authority: Address,
    pub system_program: Address,
    pub token_program: Address,
    pub associated_token_program: Address,
    pub rent: Address,
}

/// Tells observers that a token was minted.
#[derive(Clone, Copy, Debug, PartialEq, Eq)]
pub struct NftMinted {
    pub nft_mint: Address,
    pub recipient: Address,
}

/// Tells observers that a metadata field was set.
#[derive(Clone, Debug, PartialEq, Eq)]
pub struct NftMetadataUpdated {
    pub nft_mint: Address,
    pub field: String,
    pub value: String,
}

impl View for NftMetadataUpdated {
    type V = NftMetadataUpdatedView;

    open spec fn view(&self) -> NftMetadataUpdatedView {
        NftMetadataUpdatedView { nft_mint: self.nft_mint, field: self.field@, value: self.value@ }
    }
}

/// The steps that the host performs, in their order.
#[derive(Clone, Copy, Debug, PartialEq, Eq, Structural)]
pub enum Stage {
    /// Create the mint account and hand it to the token program.
    Reserve,
    /// Declare that the mint holds its own metadata.
    DeclareExtension,
    /// Initialize the mint with zero decimal places.
    InitializeMint,
    /// Write name, symbol and URI.
    InitializeMetadata,
    /// Attach the additional field.
    AttachField,
    /// Create the recipient's holding account.
    CreateHolding,
    /// Issue the one unit.
    Mint,
    /// Revoke the issuance authority.
    Revoke,
    /// Emit the completion events.
    Emit,
}

impl Stage {
    /// Position of the step in a mint, where sizing is the first step and
    /// the host's steps are the second to the tenth.
    pub open spec fn index(self) -> nat {
        match self {
            Stage::Reserve => 2,
            Stage::DeclareExtension => 3,
            Stage::InitializeMint => 4,
            Stage::InitializeMetadata => 5,
            Stage::AttachField => 6,
            Stage::CreateHolding => 7,
            Stage::Mint => 8,
            Stage::Revoke => 9,
            Stage::Emit => 10,
        }
    }

    /// The step after this one, or `None` after the last.
    pub open spec fn spec_next(self) -> Option<Stage> {
        match self {
            Stage::Reserve => Some(Stage::DeclareExtension),
            Stage::DeclareExtension => Some(Stage::InitializeMint),
            Stage::InitializeMint => Some(Stage::InitializeMetadata),
            Stage::InitializeMetadata => Some(Stage::AttachField),
            Stage::AttachField => Some(Stage::CreateHolding),
            Stage::CreateHolding => Some(Stage::Mint),
            Stage::Mint => Some(Stage::Revoke),
            Stage::Revoke => Some(Stage::Emit),
            Stage::Emit => None,
        }
    }

    /// The step after this one, or `None` after the last.
    pub fn next(self) -> (r: Option<Stage>)
        ensures
            r == self.spec_next(),
            r matches Some(s) ==> s.index() == self.index() + 1,
    {
        match self {
            Stage::Reserve => Some(Stage::DeclareExtension),
            Stage::DeclareExtension => Some(Stage::InitializeMint),
            Stage::InitializeMint => Some(Stage::InitializeMetadata),
            Stage::InitializeMetadata => Some(Stage::AttachField),
            Stage::AttachField => Some(Stage::CreateHolding),
            Stage::CreateHolding => Some(Stage::Mint),
            Stage::Mint => Some(Stage::Revoke),
            Stage::Revoke => Some(Stage::Emit),
            Stage::Emit => None,
        }
    }
}

/// The seeds with which the program signs as its authority.
#[derive(Clone, Debug, PartialEq, Eq)]
pub struct SignerSeeds {
    pub seed: Vec<u8>,
    pub bump: u8,
}

impl View for SignerSeeds {
    type V = SignerSeedsView;

    open spec fn view(&self) -> SignerSeedsView {
        SignerSeedsView { seed: self.seed@, bump: self.bump }
    }
}

/// The value of optional signer seeds.
pub open spec fn signer_seeds_view(seeds: Option<SignerSeeds>) -> Option<SignerSeedsView> {
    match seeds {
        Some(s) => Some(s@),
        None => None,
    }
}

/// Which authority of a mint a change addresses.
#[derive(Clone, Copy, Debug, PartialEq, Eq, Structural)]
pub enum AuthorityType {
    /// The authority to issue units.
    MintTokens,
    /// The authority to freeze holdings.
    FreezeAccount,
}

/// What the host is to do next.
#[derive(Clone, Debug, PartialEq, Eq)]
pub enum Action {
    /// Create account `to` with `lamports` and `space` bytes, paid by `from`
    /// and owned by `owner`, then assign it to `assign_to`.
    Reserve {
        from: Address,
        to: Address,
        lamports: u64,
        space: u64,
        owner: Address,
        assign_to: Address,
    },
    /// Invoke `instruction`, co-signed with `signer_seeds` where there are any.
    Invoke { instruction: Instruction, signer_seeds: Option<SignerSeeds> },
    /// Initialize `mint`.
    InitializeMint2 {
        mint: Address,
        decimals: u8,
        mint_authority: Address,
        freeze_authority: Option<Address>,
    },
    /// Create the holding account of `authority` for `mint`, or reuse the one
    /// that exists: the action succeeds either way.
    CreateAssociatedTokenIdempotent {
        payer: Address,
        associated_token: Address,
        authority: Address,
        mint: Address,
        system_program: Address,
        token_program: Address,
    },
    /// Issue `amount` units of `mint` into `to`.
    MintTo {
        mint: Address,
        to: Address,
        authority: Address,
        amount: u64,
        signer_seeds: Option<SignerSeeds>,
    },
    /// Replace one authority of `account_or_mint`.
    SetAuthority {
        current_authority: Address,
        account_or_mint: Address,
        authority_type: AuthorityType,
        new_authority: Option<Address>,
        signer_seeds: Option<SignerSeeds>,
    },
    /// Emit both completion events.
    Emit { minted: NftMinted, updated: NftMetadataUpdated },
}

impl View for Action {
    type V = ActionView;

    open spec fn view(&self) -> ActionView {
        match self {
            Action::Reserve { from, to, lamports, space, owner, assign_to } => ActionView::Reserve {
                from: *from,
                to: *to,
                lamports: *lamports,
                space: *space,
                owner: *owner,
                assign_to: *assign_to,
            },
            Action::Invoke { instruction, signer_seeds } => ActionView::Invoke {
                instruction: instruction@,
                signer_seeds: signer_seeds_view(*signer_seeds),
            },
            Action::InitializeMint2 {
                mint,
                decimals,
                mint_authority,
                freeze_authority,
            } => ActionView::InitializeMint2 {
                mint: *mint,
                decimals: *decimals,
                mint_authority: *mint_authority,
                freeze_authority: *freeze_authority,
            },
            Action::CreateAssociatedTokenIdempotent {
                payer,
                associated_token,
                authority,
                mint,
                system_program,
                token_program,
            } => ActionView::CreateAssociatedTokenIdempotent {
                payer: *payer,
                associated_token: *associated_token,
                authority: *authority,
                mint: *mint,
                system_program: *system_program,
                token_program: *token_program,
            },
            Action::MintTo { mint, to, authority, amount, signer_seeds } => ActionView::MintTo {
                mint: *mint,
                to: *to,
                authority: *authority,
                amount: *amount,
                signer_seeds: signer_seeds_view(*signer_seeds),
            },
            Action::SetAuthority {
                current_authority,
                account_or_mint,
                authority_type,
                new_authority,
                signer_seeds,
            } => ActionView::SetAuthority {
                current_authority: *current_authority,
                account_or_mint: *account_or_mint,
                authority_type: *authority_type,
                new_authority: *new_authority,
                signer_seeds: signer_seeds_view(*signer_seeds),
            },
            Action::Emit { minted, updated } => ActionView::Emit {
                minted: *minted,
                updated: updated@,
            },
        }
    }
}

/// The token that a completed run leaves on the ledger.
#[derive(Clone, Debug, PartialEq, Eq)]
pub struct Receipt {
    pub mint: MintRecord,
    pub metadata: TokenMetadata,
    pub holding: HoldingRecord,
}

impl View for Receipt {
    type V = ReceiptView;

    open spec fn view(&self) -> ReceiptView {
        ReceiptView { mint: self.mint, metadata: self.metadata@, holding: self.holding }
    }
}

/// Why a run ended early.
#[derive(Debug)]
pub enum Cause<E> {
    /// The host reported that the step's action failed, with this reason.
    Rejected(E),
    /// The step's instruction could not be built.
    Refused(ProgramError),
}

impl<E> View for Cause<E> {
    type V = CauseView<E>;

    open spec fn view(&self) -> CauseView<E> {
        match self {
            Cause::Rejected(e) => CauseView::Rejected(*e),
            Cause::Refused(_) => CauseView::Refused,
        }
    }
}

/// A run that ended early: the step that failed and why. Nothing of the token
/// is reported, because nothing of it is left.
#[derive(Debug)]
pub struct Failure<E> {
    pub stage: Stage,
    pub cause: Cause<E>,
}

/// A mint whose account was sized and whose authority was checked. It waits
/// for the balance that the ledger asks for an account of [`SizedMint::space`]
/// bytes.
#[derive(Debug)]
pub struct SizedMint {
    accounts: MintNft,
    bump: u8,
    metadata: TokenMetadata,
    mint_space: usize,
    metadata_space: usize,
}

impl View for SizedMint {
    type V = SizedView;

    closed spec fn view(&self) -> SizedView {
        SizedView {
            accounts: self.accounts,
            bump: self.bump,
            metadata: self.metadata@,
            mint_space: self.mint_space,
            metadata_space: self.metadata_space,
        }
    }
}

/// A run in progress: the mint's accounts and payload, and the step whose
/// outcome the run waits for.
#[derive(Debug)]
pub struct Minting {
    accounts: MintNft,
    bump: u8,
    metadata: TokenMetadata,
    mint_space: usize,
    lamports: u64,
    stage: Stage,
}

impl View for Minting {
    type V = MintingView;

    closed spec fn view(&self) -> MintingView {
        MintingView {
            accounts: self.accounts,
            bump: self.bump,
            metadata: self.metadata@,
            mint_space: self.mint_space,
            lamports: self.lamports,
            stage: self.stage,
        }
    }
}

/// How a run goes on after a step.
#[derive(Debug)]
pub enum Progress<E> {
    /// Perform the action, then report its outcome to the run.
    Next(Minting, Action),
    /// Every step succeeded: the token exists as the receipt describes it.
    Done(Receipt),
    /// The run is over and the transaction must fail.
    Failed(Failure<E>),
}

impl<E> View for Progress<E> {
    type V = ProgressView<E>;

    open spec fn view(&self) -> ProgressView<E> {
        match self {
            Progress::Next(m, a) => ProgressView::Next(m@, a@),
            Progress::Done(r) => ProgressView::Done(r@),
            Progress::Failed(f) => ProgressView::Failed(f.stage, f.cause@),
        }
    }
}

/// Changes nothing; returns the line for the host to log.
pub fn initialize(ctx: Context<Initialize>) -> (line: String)
    ensures
        line@ == spec_greeting(ctx.program_id),
{
    greeting(&ctx.program_id)
}

/// Builds the metadata payload of a new token: the supplied strings and the
/// field `level` with the value `1`, for the mint of `accounts` and with the
/// program authority as the one who may update it.
///
/// Fails with [`MintError::ZeroAuthority`] exactly when the authority is the
/// all-zero address, which cannot be an update authority.
pub fn token_metadata(accounts: &MintNft, name: String, symbol: String, uri: String) -> (r: Result<
    TokenMetadata,
    MintError,
>)
    ensures
        match r {
            Ok(m) => !accounts.nft_authority.spec_is_zero() && m@ == payload(
                *accounts,
                name@,
                symbol@,
                uri@,
            ),
            Err(MintError::ZeroAuthority(_)) => accounts.nft_authority.spec_is_zero(),
            Err(_) => false,
        },
{
    if let Err(e) = check_non_zero(&accounts.nft_authority) {
        return Err(MintError::ZeroAuthority(e));
    }
    let ghost p = payload(*accounts, name@, symbol@, uri@);
    let mut additional_metadata: Vec<(String, String)> = Vec::new();
    additional_metadata.push((String::from_str("level"), String::from_str("1")));
    let metadata = TokenMetadata {
        update_authority: Some(accounts.nft_authority),
        mint: accounts.mint,
        name,
        symbol,
        uri,
        additional_metadata,
    };
    assert(metadata@.additional_metadata =~= p.additional_metadata);
    Ok(metadata)
}

/// Sizes the account of a new token and checks the program authority.
///
/// Nothing on the ledger is touched. The result is what [`sizing`] decides
/// for the arguments; the errors come in its order.
pub fn mint_nft(ctx: Context<MintNft>, name: String, symbol: String, uri: String) -> (r: Result<
    SizedMint,
    MintError,
>)
    ensures
        match r {
            Ok(s) => sizing(ctx, name@, symbol@, uri@) == Sizing::Sized(s@) && s@.wf(),
            Err(MintError::NoProgramAddress) => sizing(ctx, name@, symbol@, uri@)
                is NoProgramAddress,
            Err(MintError::AddressMismatch) => sizing(ctx, name@, symbol@, uri@)
                is AddressMismatch,
            Err(MintError::ZeroAuthority(_)) => sizing(ctx, name@, symbol@, uri@) is ZeroAuthority,
            Err(MintError::PayloadTooLarge) => sizing(ctx, name@, symbol@, uri@)
                is PayloadTooLarge,
            Err(MintError::Unserializable(_)) => sizing(ctx, name@, symbol@, uri@)
                is Unserializable,
            Err(MintError::AccountLength(_)) => false,
        },
{
    let authority = match derive_authority(&ctx.program_id) {
        Ok(a) => a,
        Err(e) => {
            return Err(e);
        },
    };
    if !authority.address.same(&ctx.accounts.nft_authority) {
        return Err(MintError::AddressMismatch);
    }
    let metadata = match token_metadata(&ctx.accounts, name, symbol, uri) {
        Ok(m) => m,
        Err(e) => {
            return Err(e);
        },
    };
    let metadata_space = match metadata.space() {
        Ok(n) => n,
        Err(e) => {
            return Err(e);
        },
    };
    let mint_space = match mint_with_pointer_len() {
        Ok(n) => n,
        Err(e) => {
            return Err(MintError::AccountLength(e));
        },
    };
    if mint_space.checked_add(metadata_space).is_none() {
        return Err(MintError::PayloadTooLarge);
    }
    Ok(
        SizedMint {
            accounts: ctx.accounts,
            bump: authority.bump,
            metadata,
            mint_space,
            metadata_space,
        },
    )
}

impl SizedMint {
    #[verifier::type_invariant]
    spec fn inv(self) -> bool {
        self@.wf()
    }

    /// Length of the mint account at its creation.
    pub fn mint_space(&self) -> (n: usize)
        ensures
            n == self@.mint_space,
    {
        self.mint_space
    }

    /// Bytes set aside for the metadata.
    pub fn metadata_space(&self) -> (n: usize)
        ensures
            n == self@.metadata_space,
    {
        self.metadata_space
    }

    /// The length for which the ledger is asked its minimum balance: the mint
    /// account and the metadata that is written into it afterwards.
    pub fn space(&self) -> (n: usize)
        ensures
            n == self@.funded_len(),
    {
        proof {
            use_type_invariant(self);
        }
        self.mint_space + self.metadata_space
    }

    /// The bump that completes the authority's seeds.
    pub fn bump(&self) -> (b: u8)
        ensures
            b == self@.bump,
    {
        self.bump
    }

    /// Starts the run with the balance that the new account is to hold, and
    /// names its first action: reserving the account.
    pub fn reserve(self, lamports_required: u64) -> (r: (Minting, Action))
        ensures
            r.0@ == self@.funded(lamports_required),
            r.0@.action() == Some(r.1@),
    {
        proof {
            use_type_invariant(&self);
        }
        let action = Action::Reserve {
            from: self.accounts.signer,
            to: self.accounts.mint,
            lamports: lamports_required,
            space: self.mint_space as u64,
            owner: self.accounts.token_program,
            assign_to: token_2022_program_id(),
        };
        let minting = Minting {
            accounts: self.accounts,
            bump: self.bump,
            metadata: self.metadata,
            mint_space: self.mint_space,
            lamports: lamports_required,
            stage: Stage::Reserve,
        };
        (minting, action)
    }
}

impl Minting {
    #[verifier::type_invariant]
    spec fn inv(self) -> bool {
        self@.wf()
    }

    /// The step whose outcome the run waits for.
    pub fn stage(&self) -> (s: Stage)
        ensures
            s == self@.stage,
    {
        self.stage
    }

    /// The mint as the steps so far have left it.
    pub fn mint_record(&self) -> (r: Option<MintRecord>)
        ensures
            r == self@.mint_record(),
    {
        let fresh = MintRecord::initialize(self.accounts.mint, self.accounts.nft_authority, None);
        match self.stage {
            Stage::Reserve | Stage::DeclareExtension | Stage::InitializeMint => None,
            Stage::InitializeMetadata
            | Stage::AttachField
            | Stage::CreateHolding
            | Stage::Mint => Some(fresh),
            Stage::Revoke => fresh.issue(),
            Stage::Emit => Some(fresh.issue().unwrap().revoke()),
        }
    }

    /// The metadata as the steps so far have left it.
    pub fn metadata_record(&self) -> (r: Option<TokenMetadata>)
        ensures
            match r {
                Some(m) => self@.metadata_record() == Some(m@),
                None => self@.metadata_record() is None,
            },
    {
        proof {
            use_type_invariant(self);
        }
        let mut additional_metadata: Vec<(String, String)> = Vec::new();
        match self.stage {
            Stage::Reserve
            | Stage::DeclareExtension
            | Stage::InitializeMint
            | Stage::InitializeMetadata => {
                return None;
            },
            Stage::AttachField => {},
            _ => {
                let pair = &self.metadata.additional_metadata[0];
                additional_metadata.push((pair.0.clone(), pair.1.clone()));
            },
        }
        let record = TokenMetadata {
            update_authority: self.metadata.update_authority,
            mint: self.metadata.mint,
            name: self.metadata.name.clone(),
            symbol: self.metadata.symbol.clone(),
            uri: self.metadata.uri.clone(),
            additional_metadata,
        };
        assert(record@.additional_metadata =~= self@.metadata_record()->0.additional_metadata);
        Some(record)
    }

    /// The recipient's holding as the steps so far have left it.
    pub fn holding(&self) -> (r: Option<HoldingRecord>)
        ensures
            r == self@.holding(),
    {
        let amount: u64 = match self.stage {
            Stage::Mint => 0,
            Stage::Revoke | Stage::Emit => 1,
            _ => {
                return None;
            },
        };
        Some(
            HoldingRecord {
                address: self.accounts.token_account,
                mint: self.accounts.mint,
                owner: self.accounts.signer,
                amount,
            },
        )
    }

    /// The seeds that sign as the program authority.
    fn signer_seeds(&self) -> (s: SignerSeeds)
        ensures
            s@ == self@.signer_seeds(),
    {
        SignerSeeds { seed: authority_seed(), bump: self.bump }
    }

    /// Builds the action of the awaited step.
    fn build(&self) -> (r: Result<Action, ProgramError>)
        ensures
            match r {
                Ok(a) => self@.action() == Some(a@),
                Err(_) => self@.action() is None,
            },
    {
        proof {
            use_type_invariant(self);
        }
        let mint = self.accounts.mint;
        let authority = self.accounts.nft_authority;
        let token_program = token_2022_program_id();
        let ghost pairs = self@.metadata.additional_metadata;
        assert(pairs[0] == (
            self.metadata.additional_metadata@[0].0@,
            self.metadata.additional_metadata@[0].1@,
        ));
        let action = match self.stage {
            Stage::Reserve => Action::Reserve {
                from: self.accounts.signer,
                to: mint,
                lamports: self.lamports,
                space: self.mint_space as u64,
                owner: self.accounts.token_program,
                assign_to: token_program,
            },
            Stage::DeclareExtension => {
                let instruction = build_pointer_initialize(
                    &token_program,
                    &mint,
                    Some(authority),
                    Some(mint),
                )?;
                Action::Invoke { instruction, signer_seeds: None }
            },
            Stage::InitializeMint => Action::InitializeMint2 {
                mint,
                decimals: 0,
                mint_authority: authority,
                freeze_authority: None,
            },
            Stage::InitializeMetadata => {
                let instruction = build_metadata_initialize(
                    &token_program,
                    &mint,
                    &authority,
                    &mint,
                    &authority,
                    self.metadata.name.clone(),
                    self.metadata.symbol.clone(),
                    self.metadata.uri.clone(),
                );
                Action::Invoke { instruction, signer_seeds: Some(self.signer_seeds()) }
            },
            Stage::AttachField => {
                let pair = &self.metadata.additional_metadata[0];
                let instruction = build_metadata_update_field(
                    &token_program,
                    &mint,
                    &authority,
                    pair.0.clone(),
                    pair.1.clone(),
                );
                Action::Invoke { instruction, signer_seeds: Some(self.signer_seeds()) }
            },
            Stage::CreateHolding => Action::CreateAssociatedTokenIdempotent {
                payer: self.accounts.signer,
                associated_token: self.accounts.token_account,
                authority: self.accounts.signer,
                mint,
                system_program: self.accounts.system_program,
                token_program: self.accounts.token_program,
            },
            Stage::Mint => Action::MintTo {
                mint,
                to: self.accounts.token_account,
                authority,
                amount: 1,
                signer_seeds: Some(self.signer_seeds()),
            },
            Stage::Revoke => Action::SetAuthority {
                current_authority: authority,
                account_or_mint: mint,
                authority_type: AuthorityType::MintTokens,
                new_authority: None,
                signer_seeds: Some(self.signer_seeds()),
            },
            Stage::Emit => {
                let pair = &self.metadata.additional_metadata[0];
                Action::Emit {
                    minted: NftMinted { nft_mint: mint, recipient: self.accounts.signer },
                    updated: NftMetadataUpdated {
                        nft_mint: mint,
                        field: pair.0.clone(),
                        value: pair.1.clone(),
                    },
                }
            },
        };
        Ok(action)
    }

    /// Takes the outcome of the awaited step and says how the run goes on:
    /// exactly as [`MintingView::advance`] describes.
    pub fn advance<E>(self, outcome: Result<(), E>) -> (r: Progress<E>)
        ensures
            r@ == self@.advance(outcome),
    {
        proof {
            use_type_invariant(&self);
        }
        if let Err(e) = outcome {
            return Progress::Failed(Failure { stage: self.stage, cause: Cause::Rejected(e) });
        }
        match self.stage.next() {
            None => {
                let mint = MintRecord::initialize(
                    self.accounts.mint,
                    self.accounts.nft_authority,
                    None,
                ).issue().unwrap().revoke();
                let holding = HoldingRecord {
                    address: self.accounts.token_account,
                    mint: self.accounts.mint,
                    owner: self.accounts.signer,
                    amount: 1,
                };
                Progress::Done(Receipt { mint, metadata: self.metadata, holding })
            },
            Some(stage) => {
                let next = Minting {
                    accounts: self.accounts,
                    bump: self.bump,
                    metadata: self.metadata,
                    mint_space: self.mint_space,
                    lamports: self.lamports,
                    stage,
                };
                match next.build() {
                    Ok(action) => Progress::Next(next, action),
                    Err(e) => Progress::Failed(Failure { stage, cause: Cause::Refused(e) }),
                }
            },
        }
    }
}

} // verus!

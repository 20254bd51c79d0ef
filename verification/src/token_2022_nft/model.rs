//! What a mint is, mathematically: the values of the run's types, the
//! decisions of sizing and the course of a run.

use super::{AuthorityType, MintNft, NftMinted, Stage};
use crate::address::Address;
use crate::authority::{nft_authority_seed, program_address};
use crate::context::Context;
use crate::instruction::{
    metadata_initialize, metadata_update_field, pointer_initialize, token_2022_address,
    InstructionView, MINT_WITH_POINTER_LEN,
};
use crate::metadata::TokenMetadataView;
use crate::record::{HoldingRecord, MintRecord};
use vstd::prelude::*;

verus! {

/// Mathematical value of an [`NftMetadataUpdated`].
pub struct NftMetadataUpdatedView {
    pub nft_mint: Address,
    pub field: Seq<char>,
    pub value: Seq<char>,
}

/// Mathematical value of [`SignerSeeds`].
pub struct SignerSeedsView {
    pub seed: Seq<u8>,
    pub bump: u8,
}

/// Mathematical value of an [`Action`].
pub enum ActionView {
    Reserve {
        from: Address,
        to: Address,
        lamports: u64,
        space: u64,
        owner: Address,
        assign_to: Address,
    },
    Invoke { instruction: InstructionView, signer_seeds: Option<SignerSeedsView> },
    InitializeMint2 {
        mint: Address,
        decimals: u8,
        mint_authority: Address,
        freeze_authority: Option<Address>,
    },
    CreateAssociatedTokenIdempotent {
        payer: Address,
        associated_token: Address,
        authority: Address,
        mint: Address,
        system_program: Address,
        token_program: Address,
    },
    MintTo {
        mint: Address,
        to: Address,
        authority: Address,
        amount: u64,
        signer_seeds: Option<SignerSeedsView>,
    },
    SetAuthority {
        current_authority: Address,
        account_or_mint: Address,
        authority_type: AuthorityType,
        new_authority: Option<Address>,
        signer_seeds: Option<SignerSeedsView>,
    },
    Emit { minted: NftMinted, updated: NftMetadataUpdatedView },
}

/// Mathematical value of a [`Receipt`].
pub struct ReceiptView {
    pub mint: MintRecord,
    pub metadata: TokenMetadataView,
    pub holding: HoldingRecord,
}

/// Mathematical value of a [`Cause`].
pub enum CauseView<E> {
    Rejected(E),
    Refused,
}

/// The field that every token of this program carries, and its first value.
pub open spec fn level_field() -> (Seq<char>, Seq<char>) {
    ("level"@, "1"@)
}

/// The metadata payload of a new token: the supplied strings, the additional
/// field, the mint itself and the program authority as update authority.
pub open spec fn payload(
    accounts: MintNft,
    name: Seq<char>,
    symbol: Seq<char>,
    uri: Seq<char>,
) -> TokenMetadataView {
    TokenMetadataView {
        update_authority: Some(accounts.nft_authority),
        mint: accounts.mint,
        name,
        symbol,
        uri,
        additional_metadata: seq![level_field()],
    }
}

/// Mathematical value of a [`SizedMint`]: a mint whose account was sized.
pub struct SizedView {
    pub accounts: MintNft,
    pub bump: u8,
    pub metadata: TokenMetadataView,
    /// Length of the mint account at its creation.
    pub mint_space: usize,
    /// Bytes set aside for the metadata that is written into it afterwards.
    pub metadata_space: usize,
}

impl SizedView {
    /// The length that the account's balance has to keep alive.
    pub open spec fn funded_len(self) -> nat {
        (self.mint_space + self.metadata_space) as nat
    }

    /// What [`mint_nft`] establishes of its result.
    pub open spec fn wf(self) -> bool {
        &&& self.metadata.serializable()
        &&& self.metadata.additional_metadata.len() == 1
        &&& self.funded_len() <= usize::MAX
    }

    /// The run that starts once the balance is known.
    pub open spec fn funded(self, lamports: u64) -> MintingView {
        MintingView {
            accounts: self.accounts,
            bump: self.bump,
            metadata: self.metadata,
            mint_space: self.mint_space,
            lamports,
            stage: Stage::Reserve,
        }
    }
}

/// How sizing ends.
pub enum Sizing {
    Sized(SizedView),
    NoProgramAddress,
    AddressMismatch,
    ZeroAuthority,
    PayloadTooLarge,
    Unserializable,
}

/// What [`mint_nft`] decides. The authority account must be the address that
/// the ledger derives from the authority seed, and must not be the all-zero
/// address. The payload must be countable and serializable, and so must the
/// length of the mint account together with the payload's space.
pub open spec fn sizing(
    ctx: Context<MintNft>,
    name: Seq<char>,
    symbol: Seq<char>,
    uri: Seq<char>,
) -> Sizing {
    let p = payload(ctx.accounts, name, symbol, uri);
    match program_address(seq![nft_authority_seed()], ctx.program_id@) {
        None => Sizing::NoProgramAddress,
        Some((address, bump)) => if address != ctx.accounts.nft_authority@ {
            Sizing::AddressMismatch
        } else if ctx.accounts.nft_authority.spec_is_zero() {
            Sizing::ZeroAuthority
        } else if p.tlv_size() > usize::MAX {
            Sizing::PayloadTooLarge
        } else if !p.serializable() {
            Sizing::Unserializable
        } else if MINT_WITH_POINTER_LEN + p.space() > usize::MAX {
            Sizing::PayloadTooLarge
        } else {
            Sizing::Sized(
                SizedView {
                    accounts: ctx.accounts,
                    bump,
                    metadata: p,
                    mint_space: MINT_WITH_POINTER_LEN,
                    metadata_space: p.space() as usize,
                },
            )
        },
    }
}

/// Mathematical value of a [`Minting`]: a run and the step it waits for.
pub struct MintingView {
    pub accounts: MintNft,
    pub bump: u8,
    pub metadata: TokenMetadataView,
    pub mint_space: usize,
    pub lamports: u64,
    pub stage: Stage,
}

/// How a run goes on after a step.
pub enum ProgressView<E> {
    /// The run waits for the next step's action.
    Next(MintingView, ActionView),
    /// Every step succeeded.
    Done(ReceiptView),
    /// The run is over; the ledger discards what the steps did.
    Failed(Stage, CauseView<E>),
}

impl MintingView {
    /// What holds of every run.
    pub open spec fn wf(self) -> bool {
        &&& self.metadata.serializable()
        &&& self.metadata.additional_metadata.len() == 1
    }

    /// The same run at another step.
    pub open spec fn at(self, stage: Stage) -> MintingView {
        MintingView { stage, ..self }
    }

    /// The seeds that sign as the program authority.
    pub open spec fn signer_seeds(self) -> SignerSeedsView {
        SignerSeedsView { seed: nft_authority_seed(), bump: self.bump }
    }

    /// Whether the instruction that declares the metadata pointer can be
    /// built: neither the authority nor the mint may be the all-zero address.
    pub open spec fn pointer_encodable(self) -> bool {
        !self.accounts.nft_authority.spec_is_zero() && !self.accounts.mint.spec_is_zero()
    }

    /// The action of the step that the run waits for, or `None` where its
    /// instruction cannot be built.
    pub open spec fn action(self) -> Option<ActionView> {
        let token_program = token_2022_address();
        let mint = self.accounts.mint;
        let authority = self.accounts.nft_authority;
        match self.stage {
            Stage::Reserve => Some(
                ActionView::Reserve {
                    from: self.accounts.signer,
                    to: mint,
                    lamports: self.lamports,
                    space: self.mint_space as u64,
                    owner: self.accounts.token_program,
                    assign_to: token_program,
                },
            ),
            Stage::DeclareExtension => if self.pointer_encodable() {
                Some(
                    ActionView::Invoke {
                        instruction: pointer_initialize(
                            token_program,
                            mint,
                            Some(authority),
                            Some(mint),
                        ),
                        signer_seeds: None,
                    },
                )
            } else {
                None
            },
            Stage::InitializeMint => Some(
                ActionView::InitializeMint2 {
                    mint,
                    decimals: 0,
                    mint_authority: authority,
                    freeze_authority: None,
                },
            ),
            Stage::InitializeMetadata => Some(
                ActionView::Invoke {
                    instruction: metadata_initialize(
                        token_program,
                        mint,
                        authority,
                        mint,
                        authority,
                        self.metadata.name,
                        self.metadata.symbol,
                        self.metadata.uri,
                    ),
                    signer_seeds: Some(self.signer_seeds()),
                },
            ),
            Stage::AttachField => Some(
                ActionView::Invoke {
                    instruction: metadata_update_field(
                        token_program,
                        mint,
                        authority,
                        self.metadata.additional_metadata[0].0,
                        self.metadata.additional_metadata[0].1,
                    ),
                    signer_seeds: Some(self.signer_seeds()),
                },
            ),
            Stage::CreateHolding => Some(
                ActionView::CreateAssociatedTokenIdempotent {
                    payer: self.accounts.signer,
                    associated_token: self.accounts.token_account,
                    authority: self.accounts.signer,
                    mint,
                    system_program: self.accounts.system_program,
                    token_program: self.accounts.token_program,
                },
            ),
            Stage::Mint => Some(
                ActionView::MintTo {
                    mint,
                    to: self.accounts.token_account,
                    authority,
                    amount: 1,
                    signer_seeds: Some(self.signer_seeds()),
                },
            ),
            Stage::Revoke => Some(
                ActionView::SetAuthority {
                    current_authority: authority,
                    account_or_mint: mint,
                    authority_type: AuthorityType::MintTokens,
                    new_authority: None,
                    signer_seeds: Some(self.signer_seeds()),
                },
            ),
            Stage::Emit => Some(
                ActionView::Emit {
                    minted: NftMinted { nft_mint: mint, recipient: self.accounts.signer },
                    updated: NftMetadataUpdatedView {
                        nft_mint: mint,
                        field: self.metadata.additional_metadata[0].0,
                        value: self.metadata.additional_metadata[0].1,
                    },
                },
            ),
        }
    }

    /// The mint as the steps before the awaited one have left it: absent
    /// until it is initialized, then without units, then with its one unit,
    /// then without issuance authority.
    pub open spec fn mint_record(self) -> Option<MintRecord> {
        let fresh = MintRecord::spec_initialize(
            self.accounts.mint,
            self.accounts.nft_authority,
            None,
        );
        match self.stage {
            Stage::Reserve | Stage::DeclareExtension | Stage::InitializeMint => None,
            Stage::InitializeMetadata
            | Stage::AttachField
            | Stage::CreateHolding
            | Stage::Mint => Some(fresh),
            Stage::Revoke => fresh.spec_issue(),
            Stage::Emit => Some(fresh.spec_issue()->0.spec_revoke()),
        }
    }

    /// The metadata as the steps before the awaited one have left it: absent
    /// until it is initialized, then without the additional field, then whole.
    pub open spec fn metadata_record(self) -> Option<TokenMetadataView> {
        match self.stage {
            Stage::Reserve
            | Stage::DeclareExtension
            | Stage::InitializeMint
            | Stage::InitializeMetadata => None,
            Stage::AttachField => Some(
                TokenMetadataView { additional_metadata: Seq::empty(), ..self.metadata },
            ),
            _ => Some(self.metadata),
        }
    }

    /// The recipient's holding as the steps before the awaited one have left
    /// it.
    pub open spec fn holding(self) -> Option<HoldingRecord> {
        let empty = HoldingRecord {
            address: self.accounts.token_account,
            mint: self.accounts.mint,
            owner: self.accounts.signer,
            amount: 0,
        };
        match self.stage {
            Stage::Mint => Some(empty),
            Stage::Revoke | Stage::Emit => Some(HoldingRecord { amount: 1, ..empty }),
            _ => None,
        }
    }

    /// The token once every step has succeeded.
    pub open spec fn receipt(self) -> ReceiptView {
        ReceiptView {
            mint: MintRecord::spec_initialize(
                self.accounts.mint,
                self.accounts.nft_authority,
                None,
            ).spec_issue()->0.spec_revoke(),
            metadata: self.metadata,
            holding: HoldingRecord {
                address: self.accounts.token_account,
                mint: self.accounts.mint,
                owner: self.accounts.signer,
                amount: 1,
            },
        }
    }

    /// How the run goes on when the host reports `outcome` for the awaited
    /// step. A failure ends the run at that step. A success moves it to the
    /// next step, ends it there if that step's instruction cannot be built, or
    /// completes it after the last step.
    pub open spec fn advance<E>(self, outcome: Result<(), E>) -> ProgressView<E> {
        match outcome {
            Err(e) => ProgressView::Failed(self.stage, CauseView::Rejected(e)),
            Ok(_) => match self.stage.spec_next() {
                None => ProgressView::Done(self.receipt()),
                Some(s) => match self.at(s).action() {
                    Some(a) => ProgressView::Next(self.at(s), a),
                    None => ProgressView::Failed(s, CauseView::Refused),
                },
            },
        }
    }
}

impl MintingView {
    /// Where the run ends when the host reports success for every step from
    /// the awaited one on.
    pub open spec fn complete(self) -> ProgressView<()>
        decreases 10 - self.stage.index(),
    {
        match self.stage.spec_next() {
            Some(s) if self.at(s).action() is Some => self.at(s).complete(),
            _ => self.advance(Ok::<(), ()>(())),
        }
    }
}

} // verus!

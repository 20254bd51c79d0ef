use anchor_lang::prelude::Pubkey;
use nft_minter::address::Address;
use nft_minter::context::Context;
use nft_minter::error::MintError;
use nft_minter::metaplex_nft::{
    mint_nft, Action, DataV2, EditionRecord, MetadataRecord, MintNFT, Minting, Progress, Receipt,
    Stage,
};

const SIGNER: [u8; 32] = [11u8; 32];
const MINT: [u8; 32] = [22u8; 32];
const HOLDING: [u8; 32] = [33u8; 32];
const TOKEN: [u8; 32] = [66u8; 32];
const METADATA_PROGRAM: [u8; 32] = [
    11, 112, 101, 177, 227, 209, 124, 69, 56, 157, 82, 127, 107, 4, 195, 205, 88, 184, 108, 115, 26,
    160, 253, 181, 73, 182, 209, 188, 3, 248, 41, 70,
];

fn derived(mint: [u8; 32]) -> ([u8; 32], [u8; 32]) {
    let program = Pubkey::new_from_array(METADATA_PROGRAM);
    let metadata = Pubkey::find_program_address(&[b"metadata", &METADATA_PROGRAM, &mint], &program).0;
    let edition =
        Pubkey::find_program_address(&[b"metadata", &METADATA_PROGRAM, &mint, b"edition"], &program).0;
    (metadata.to_bytes(), edition.to_bytes())
}

fn accounts() -> MintNFT {
    let (metadata, edition) = derived(MINT);
    MintNFT {
        signer: Address::new(SIGNER),
        mint_account: Address::new(MINT),
        associated_token_account: Address::new(HOLDING),
        metadata_account: Address::new(metadata),
        edition_account: Address::new(edition),
        token_program: Address::new(TOKEN),
        associated_token_program: Address::new([44u8; 32]),
        token_metadata_program: Address::new(METADATA_PROGRAM),
        system_program: Address::new([0u8; 32]),
        rent: Address::new([55u8; 32]),
    }
}

fn context() -> Context<MintNFT> {
    Context { program_id: Address::new([99u8; 32]), accounts: accounts() }
}

fn shield() -> (Minting, Action) {
    mint_nft(context(), "Shield".into(), "SHD".into(), "https://x/2.json".into()).unwrap()
}

fn shield_data() -> DataV2 {
    DataV2 {
        name: "Shield".into(),
        symbol: "SHD".into(),
        uri: "https://x/2.json".into(),
        seller_fee_basis_points: 0,
        creators: None,
        collection: None,
        uses: None,
    }
}

#[test]
fn mint_nft_legacy_shield() {
    let a = accounts();
    let (run, first) = shield();
    assert_eq!(run.stage(), Stage::Mint);
    assert_eq!(run.issued(), 0);
    assert_eq!(
        first,
        Action::MintTo {
            mint: a.mint_account,
            to: a.associated_token_account,
            authority: a.signer,
            amount: 1,
        }
    );
    let (run, second) = match run.advance(Ok::<(), String>(())) {
        Progress::Next(m, a) => (m, a),
        other => panic!("unexpected {:?}", other),
    };
    assert_eq!(run.stage(), Stage::CreateMetadata);
    assert_eq!(run.issued(), 1);
    assert_eq!(
        second,
        Action::CreateMetadataAccountsV3 {
            metadata: a.metadata_account,
            mint: a.mint_account,
            mint_authority: a.signer,
            update_authority: a.signer,
            payer: a.signer,
            system_program: a.system_program,
            rent: a.rent,
            data: shield_data(),
            is_mutable: false,
            update_authority_is_signer: true,
            collection_details: None,
        }
    );
    let (run, third) = match run.advance(Ok::<(), String>(())) {
        Progress::Next(m, a) => (m, a),
        other => panic!("unexpected {:?}", other),
    };
    assert_eq!(run.stage(), Stage::CreateMasterEdition);
    assert_eq!(run.issued(), 1);
    assert_eq!(
        third,
        Action::CreateMasterEditionV3 {
            edition: a.edition_account,
            mint: a.mint_account,
            update_authority: a.signer,
            mint_authority: a.signer,
            payer: a.signer,
            metadata: a.metadata_account,
            token_program: a.token_program,
            system_program: a.system_program,
            rent: a.rent,
            max_supply: Some(0),
        }
    );
    let receipt = match run.advance(Ok::<(), String>(())) {
        Progress::Done(r) => r,
        other => panic!("unexpected {:?}", other),
    };
    assert_eq!(
        receipt,
        Receipt {
            issued: 1,
            metadata: MetadataRecord {
                address: a.metadata_account,
                mint: a.mint_account,
                update_authority: a.signer,
                data: shield_data(),
                is_mutable: false,
            },
            edition: EditionRecord {
                address: a.edition_account,
                mint: a.mint_account,
                max_supply: Some(0),
            },
        }
    );
    assert_eq!(receipt.metadata.data.seller_fee_basis_points, 0);
}

#[test]
fn the_metadata_account_must_be_the_derived_one() {
    let mut ctx = context();
    ctx.accounts.metadata_account = Address::new([1u8; 32]);
    let r = mint_nft(ctx, "Shield".into(), "SHD".into(), "https://x/2.json".into());
    assert!(matches!(r, Err(MintError::AddressMismatch)));
}

#[test]
fn the_edition_account_must_be_the_derived_one() {
    let mut ctx = context();
    ctx.accounts.edition_account = ctx.accounts.metadata_account;
    let r = mint_nft(ctx, "Shield".into(), "SHD".into(), "https://x/2.json".into());
    assert!(matches!(r, Err(MintError::AddressMismatch)));
}

#[test]
fn records_of_another_mint_are_refused() {
    let (metadata, edition) = derived([23u8; 32]);
    let mut ctx = context();
    ctx.accounts.metadata_account = Address::new(metadata);
    ctx.accounts.edition_account = Address::new(edition);
    let r = mint_nft(ctx, "Shield".into(), "SHD".into(), "https://x/2.json".into());
    assert!(matches!(r, Err(MintError::AddressMismatch)));
}

#[test]
fn the_two_record_addresses_differ() {
    let (metadata, edition) = derived(MINT);
    assert_ne!(metadata, edition);
    assert_ne!(metadata, MINT);
}

#[test]
fn a_rejected_step_ends_the_legacy_run_there() {
    for failing in [Stage::Mint, Stage::CreateMetadata, Stage::CreateMasterEdition] {
        let (mut run, _) = shield();
        let end = loop {
            let outcome = if run.stage() == failing { Err(7u32) } else { Ok(()) };
            match run.advance(outcome) {
                Progress::Next(next, _) => run = next,
                end => break end,
            }
        };
        match end {
            Progress::Failed(f) => {
                assert_eq!(f.stage, failing);
                assert_eq!(f.reason, 7);
            }
            other => panic!("the run went on: {:?}", other),
        }
    }
}

// A ledger as the host sees it: units issued per mint and the records that
// exist. It commits a run only as a whole.

#[derive(Clone, Debug, Default, PartialEq)]
struct Ledger {
    supply: u64,
    records: Vec<[u8; 32]>,
}

fn create(ledger: &mut Ledger, address: [u8; 32]) -> Result<(), String> {
    if ledger.records.contains(&address) {
        return Err("account already exists".to_string());
    }
    ledger.records.push(address);
    Ok(())
}

fn transact(ledger: &mut Ledger) -> Result<Receipt, (Stage, String)> {
    let mut scratch = ledger.clone();
    let (mut run, mut action) = shield();
    loop {
        let outcome = match &action {
            Action::MintTo { amount, .. } => {
                scratch.supply += amount;
                Ok(())
            }
            Action::CreateMetadataAccountsV3 { metadata, .. } => create(&mut scratch, metadata.bytes),
            Action::CreateMasterEditionV3 { edition, .. } => create(&mut scratch, edition.bytes),
        };
        match run.advance(outcome) {
            Progress::Next(next, a) => {
                run = next;
                action = a;
            }
            Progress::Done(receipt) => {
                *ledger = scratch;
                return Ok(receipt);
            }
            Progress::Failed(f) => return Err((f.stage, f.reason)),
        }
    }
}

#[test]
fn a_second_legacy_mint_of_the_same_mint_fails() {
    let mut ledger = Ledger::default();
    let receipt = transact(&mut ledger).unwrap();
    assert_eq!(receipt.issued, 1);
    assert_eq!(ledger.supply, 1);
    let (metadata, edition) = derived(MINT);
    assert_eq!(ledger.records, vec![metadata, edition]);
    let after_first = ledger.clone();
    let second = transact(&mut ledger);
    assert_eq!(second, Err((Stage::CreateMetadata, "account already exists".to_string())));
    assert_eq!(ledger, after_first);
    assert_eq!(ledger.supply, 1);
}

use anchor_lang::prelude::Pubkey;
use anchor_spl::token_2022::spl_token_2022;
use anchor_spl::token_interface::spl_token_metadata_interface as interface;
use nft_minter::address::Address;
use nft_minter::context::Context;
use nft_minter::error::MintError;
use nft_minter::instruction::{AccountMeta, Instruction, MINT_WITH_POINTER_LEN, TOKEN_2022_PROGRAM_ID};
use nft_minter::record::{HoldingRecord, IssuanceAuthority, MintRecord};
use nft_minter::token_2022_nft::{
    mint_nft, token_metadata, Action, AuthorityType, Cause, MintNft, Minting, NftMetadataUpdated,
    NftMinted, Progress, Receipt, SignerSeeds, Stage, NFT_AUTHORITY_SPACE,
};
use std::collections::BTreeMap;

const PROGRAM: [u8; 32] = [
    20, 148, 105, 212, 113, 186, 79, 77, 206, 54, 57, 78, 40, 212, 128, 31, 10, 94, 187, 242, 25,
    211, 44, 185, 47, 235, 194, 7, 220, 169, 23, 1,
];
const SIGNER: [u8; 32] = [11u8; 32];
const MINT: [u8; 32] = [22u8; 32];
const HOLDING: [u8; 32] = [33u8; 32];
const SYSTEM: [u8; 32] = [0u8; 32];
const ASSOCIATED: [u8; 32] = [44u8; 32];
const RENT: [u8; 32] = [55u8; 32];

fn authority() -> (Address, u8) {
    let (key, bump) = Pubkey::find_program_address(&[b"nft_authority"], &Pubkey::new_from_array(PROGRAM));
    (Address::new(key.to_bytes()), bump)
}

fn accounts(mint: [u8; 32]) -> MintNft {
    MintNft {
        signer: Address::new(SIGNER),
        mint: Address::new(mint),
        token_account: Address::new(HOLDING),
        nft_authority: authority().0,
        system_program: Address::new(SYSTEM),
        token_program: Address::new(TOKEN_2022_PROGRAM_ID),
        associated_token_program: Address::new(ASSOCIATED),
        rent: Address::new(RENT),
    }
}

fn context(mint: [u8; 32]) -> Context<MintNft> {
    Context { program_id: Address::new(PROGRAM), accounts: accounts(mint) }
}

fn seeds() -> SignerSeeds {
    SignerSeeds { seed: b"nft_authority".to_vec(), bump: authority().1 }
}

fn start(name: &str, symbol: &str, uri: &str, lamports: u64) -> (Minting, Action) {
    mint_nft(context(MINT), name.to_string(), symbol.to_string(), uri.to_string())
        .unwrap()
        .reserve(lamports)
}

fn same_instruction(ours: &Instruction, theirs: &anchor_lang::solana_program::instruction::Instruction) {
    assert_eq!(ours.program_id.bytes, theirs.program_id.to_bytes());
    assert_eq!(ours.data, theirs.data);
    assert_eq!(ours.accounts.len(), theirs.accounts.len());
    for (a, b) in ours.accounts.iter().zip(theirs.accounts.iter()) {
        assert_eq!(a.pubkey.bytes, b.pubkey.to_bytes());
        assert_eq!(a.is_signer, b.is_signer);
        assert_eq!(a.is_writable, b.is_writable);
    }
}

/// Performs every action successfully and returns the actions with the end.
fn run_to_end(mut run: Minting, first: Action) -> (Vec<(Stage, Action)>, Progress<String>) {
    let mut seen = vec![(run.stage(), first)];
    loop {
        match run.advance(Ok::<(), String>(())) {
            Progress::Next(next, action) => {
                seen.push((next.stage(), action));
                run = next;
            }
            end => return (seen, end),
        }
    }
}

#[test]
fn sizing_of_the_sword() {
    let sized = mint_nft(context(MINT), "Sword".into(), "SWD".into(), "https://x/1.json".into()).unwrap();
    assert_eq!(sized.mint_space(), 234);
    assert_eq!(sized.mint_space(), MINT_WITH_POINTER_LEN);
    assert_eq!(sized.metadata_space(), 126);
    assert_eq!(sized.space(), 360);
    assert_eq!(sized.bump(), authority().1);
}

#[test]
fn mint_length_agrees_with_the_token_program() {
    let theirs = spl_token_2022::extension::ExtensionType::try_calculate_account_len::<
        spl_token_2022::state::Mint,
    >(&[spl_token_2022::extension::ExtensionType::MetadataPointer])
    .unwrap();
    let sized = mint_nft(context(MINT), String::new(), String::new(), String::new()).unwrap();
    assert_eq!(sized.mint_space(), theirs);
    // 92 for the empty payload, 14 for the level field, less the 4-byte prefix.
    assert_eq!(sized.metadata_space(), 92 + 14 - 4);
    assert_eq!(sized.space(), 234 + 102);
}

#[test]
fn sizing_grows_with_the_strings() {
    let short = mint_nft(context(MINT), "a".into(), "b".into(), "c".into()).unwrap().space();
    let long = mint_nft(context(MINT), "aa".into(), "bbb".into(), "cccc".into()).unwrap().space();
    assert_eq!(long, short + 1 + 2 + 3);
}

#[test]
fn the_authority_account_must_be_the_derived_one() {
    let mut ctx = context(MINT);
    ctx.accounts.nft_authority = Address::new([77u8; 32]);
    let r = mint_nft(ctx, "Sword".into(), "SWD".into(), "https://x/1.json".into());
    assert!(matches!(r, Err(MintError::AddressMismatch)));
}

#[test]
fn the_zero_address_is_not_the_derived_authority() {
    let mut ctx = context(MINT);
    ctx.accounts.nft_authority = Address::new([0u8; 32]);
    let r = mint_nft(ctx, "Sword".into(), "SWD".into(), "https://x/1.json".into());
    assert!(matches!(r, Err(MintError::AddressMismatch)));
}

#[test]
fn the_zero_authority_cannot_update_metadata() {
    let mut zero = accounts(MINT);
    zero.nft_authority = Address::new([0u8; 32]);
    let r = token_metadata(&zero, "Sword".into(), "SWD".into(), "https://x/1.json".into());
    match r {
        Err(MintError::ZeroAuthority(e)) => {
            assert_eq!(e, anchor_lang::prelude::ProgramError::InvalidArgument)
        }
        other => panic!("unexpected {:?}", other),
    }
    let mut almost = accounts(MINT);
    let mut bytes = [0u8; 32];
    bytes[31] = 1;
    almost.nft_authority = Address::new(bytes);
    let m = token_metadata(&almost, "Sword".into(), "SWD".into(), "https://x/1.json".into()).unwrap();
    assert_eq!(m.update_authority, Some(Address::new(bytes)));
}

#[test]
fn the_payload_holds_the_strings_and_the_level() {
    let m = token_metadata(&accounts(MINT), "Sword".into(), "SWD".into(), "https://x/1.json".into())
        .unwrap();
    assert_eq!(
        m,
        nft_minter::metadata::TokenMetadata {
            update_authority: Some(authority().0),
            mint: Address::new(MINT),
            name: "Sword".into(),
            symbol: "SWD".into(),
            uri: "https://x/1.json".into(),
            additional_metadata: vec![("level".to_string(), "1".to_string())],
        }
    );
}

#[test]
fn the_authority_of_another_program_is_refused() {
    let mut ctx = context(MINT);
    ctx.program_id = Address::new([9u8; 32]);
    let r = mint_nft(ctx, "Sword".into(), "SWD".into(), "https://x/1.json".into());
    assert!(matches!(r, Err(MintError::AddressMismatch)));
}

#[test]
fn the_authority_account_holds_only_its_tag() {
    assert_eq!(NFT_AUTHORITY_SPACE, 8);
}

#[test]
fn mint_nft_extension_sword() {
    let lamports = anchor_lang::prelude::Rent::default().minimum_balance(360);
    assert_eq!(lamports, 3_396_480);
    let (run, first) = start("Sword", "SWD", "https://x/1.json", lamports);
    assert_eq!(run.stage(), Stage::Reserve);
    assert_eq!(run.mint_record(), None);
    let (seen, end) = run_to_end(run, first);

    let stages: Vec<Stage> = seen.iter().map(|(s, _)| *s).collect();
    assert_eq!(
        stages,
        vec![
            Stage::Reserve,
            Stage::DeclareExtension,
            Stage::InitializeMint,
            Stage::InitializeMetadata,
            Stage::AttachField,
            Stage::CreateHolding,
            Stage::Mint,
            Stage::Revoke,
            Stage::Emit,
        ]
    );
    let mint = Address::new(MINT);
    let signer = Address::new(SIGNER);
    let pda = authority().0;
    let token_program = Address::new(TOKEN_2022_PROGRAM_ID);

    assert_eq!(
        seen[0].1,
        Action::Reserve {
            from: signer,
            to: mint,
            lamports: 3_396_480,
            space: 234,
            owner: token_program,
            assign_to: token_program,
        }
    );
    let mut pointer_data = vec![39u8, 0u8];
    pointer_data.extend_from_slice(&pda.bytes);
    pointer_data.extend_from_slice(&MINT);
    assert_eq!(
        seen[1].1,
        Action::Invoke {
            instruction: Instruction {
                program_id: token_program,
                accounts: vec![AccountMeta { pubkey: mint, is_signer: false, is_writable: true }],
                data: pointer_data,
            },
            signer_seeds: None,
        }
    );
    assert_eq!(
        seen[2].1,
        Action::InitializeMint2 { mint, decimals: 0, mint_authority: pda, freeze_authority: None }
    );
    let mut init_data = vec![210u8, 225, 30, 162, 88, 184, 77, 141];
    init_data.extend_from_slice(&[5, 0, 0, 0]);
    init_data.extend_from_slice(b"Sword");
    init_data.extend_from_slice(&[3, 0, 0, 0]);
    init_data.extend_from_slice(b"SWD");
    init_data.extend_from_slice(&[16, 0, 0, 0]);
    init_data.extend_from_slice(b"https://x/1.json");
    assert_eq!(
        seen[3].1,
        Action::Invoke {
            instruction: Instruction {
                program_id: token_program,
                accounts: vec![
                    AccountMeta { pubkey: mint, is_signer: false, is_writable: true },
                    AccountMeta { pubkey: pda, is_signer: false, is_writable: false },
                    AccountMeta { pubkey: mint, is_signer: false, is_writable: false },
                    AccountMeta { pubkey: pda, is_signer: true, is_writable: false },
                ],
                data: init_data,
            },
            signer_seeds: Some(seeds()),
        }
    );
    let mut field_data = vec![221u8, 233, 49, 45, 181, 202, 220, 200, 3];
    field_data.extend_from_slice(&[5, 0, 0, 0]);
    field_data.extend_from_slice(b"level");
    field_data.extend_from_slice(&[1, 0, 0, 0]);
    field_data.extend_from_slice(b"1");
    assert_eq!(
        seen[4].1,
        Action::Invoke {
            instruction: Instruction {
                program_id: token_program,
                accounts: vec![
                    AccountMeta { pubkey: mint, is_signer: false, is_writable: true },
                    AccountMeta { pubkey: pda, is_signer: true, is_writable: false },
                ],
                data: field_data,
            },
            signer_seeds: Some(seeds()),
        }
    );
    assert_eq!(
        seen[5].1,
        Action::CreateAssociatedTokenIdempotent {
            payer: signer,
            associated_token: Address::new(HOLDING),
            authority: signer,
            mint,
            system_program: Address::new(SYSTEM),
            token_program,
        }
    );
    assert_eq!(
        seen[6].1,
        Action::MintTo {
            mint,
            to: Address::new(HOLDING),
            authority: pda,
            amount: 1,
            signer_seeds: Some(seeds()),
        }
    );
    assert_eq!(
        seen[7].1,
        Action::SetAuthority {
            current_authority: pda,
            account_or_mint: mint,
            authority_type: AuthorityType::MintTokens,
            new_authority: None,
            signer_seeds: Some(seeds()),
        }
    );
    assert_eq!(
        seen[8].1,
        Action::Emit {
            minted: NftMinted { nft_mint: mint, recipient: signer },
            updated: NftMetadataUpdated { nft_mint: mint, field: "level".into(), value: "1".into() },
        }
    );

    let receipt = match end {
        Progress::Done(r) => r,
        other => panic!("the run did not complete: {:?}", other),
    };
    assert_eq!(receipt.mint.decimals, 0);
    assert_eq!(receipt.mint.supply, 1);
    assert_eq!(receipt.mint.mint_authority, IssuanceAuthority::Revoked);
    assert_eq!(receipt.mint.freeze_authority, None);
    assert_eq!(receipt.mint.address, mint);
    assert_eq!(
        receipt.holding,
        HoldingRecord { address: Address::new(HOLDING), mint, owner: signer, amount: 1 }
    );
    assert_eq!(receipt.metadata.name, "Sword");
    assert_eq!(receipt.metadata.symbol, "SWD");
    assert_eq!(receipt.metadata.uri, "https://x/1.json");
    assert_eq!(receipt.metadata.additional_metadata, vec![("level".to_string(), "1".to_string())]);
    assert_eq!(receipt.metadata.update_authority, Some(pda));
    assert_eq!(receipt.metadata.mint, mint);
}

#[test]
fn instructions_agree_with_the_programs_builders() {
    let (run, first) = start("Shield of Ages", "SHD", "https://example.org/2.json", 1);
    let (seen, _) = run_to_end(run, first);
    let token = Pubkey::new_from_array(TOKEN_2022_PROGRAM_ID);
    let mint = Pubkey::new_from_array(MINT);
    let pda = Pubkey::new_from_array(authority().0.bytes);

    let pointer = spl_token_2022::extension::metadata_pointer::instruction::initialize(
        &token,
        &mint,
        Some(pda),
        Some(mint),
    )
    .unwrap();
    match &seen[1].1 {
        Action::Invoke { instruction, signer_seeds: None } => same_instruction(instruction, &pointer),
        other => panic!("unexpected action {:?}", other),
    }
    let init = interface::instruction::initialize(
        &token,
        &mint,
        &pda,
        &mint,
        &pda,
        "Shield of Ages".to_string(),
        "SHD".to_string(),
        "https://example.org/2.json".to_string(),
    );
    match &seen[3].1 {
        Action::Invoke { instruction, signer_seeds: Some(_) } => same_instruction(instruction, &init),
        other => panic!("unexpected action {:?}", other),
    }
    let update = interface::instruction::update_field(
        &token,
        &mint,
        &pda,
        interface::state::Field::Key("level".to_string()),
        "1".to_string(),
    );
    match &seen[4].1 {
        Action::Invoke { instruction, signer_seeds: Some(_) } => same_instruction(instruction, &update),
        other => panic!("unexpected action {:?}", other),
    }
}

#[test]
fn strings_are_encoded_by_their_bytes() {
    let (run, first) = start("剑", "é", "", 1);
    let (seen, _) = run_to_end(run, first);
    let mut expected = vec![210u8, 225, 30, 162, 88, 184, 77, 141];
    expected.extend_from_slice(&[3, 0, 0, 0]);
    expected.extend_from_slice("剑".as_bytes());
    expected.extend_from_slice(&[2, 0, 0, 0]);
    expected.extend_from_slice("é".as_bytes());
    expected.extend_from_slice(&[0, 0, 0, 0]);
    match &seen[3].1 {
        Action::Invoke { instruction, .. } => assert_eq!(instruction.data, expected),
        other => panic!("unexpected action {:?}", other),
    }
}

#[test]
fn records_follow_the_steps() {
    let (mut run, _) = start("Sword", "SWD", "https://x/1.json", 5);
    let mint = Address::new(MINT);
    let fresh = MintRecord::initialize(mint, authority().0, None);
    let holding = HoldingRecord {
        address: Address::new(HOLDING),
        mint,
        owner: Address::new(SIGNER),
        amount: 0,
    };
    let mut states = Vec::new();
    loop {
        states.push((run.stage(), run.mint_record(), run.holding()));
        match run.advance(Ok::<(), String>(())) {
            Progress::Next(next, _) => run = next,
            Progress::Done(_) => break,
            Progress::Failed(f) => panic!("failed at {:?}", f.stage),
        }
    }
    let issued = MintRecord { supply: 1, ..fresh };
    let revoked = MintRecord { mint_authority: IssuanceAuthority::Revoked, ..issued };
    let filled = HoldingRecord { amount: 1, ..holding };
    assert_eq!(
        states,
        vec![
            (Stage::Reserve, None, None),
            (Stage::DeclareExtension, None, None),
            (Stage::InitializeMint, None, None),
            (Stage::InitializeMetadata, Some(fresh), None),
            (Stage::AttachField, Some(fresh), None),
            (Stage::CreateHolding, Some(fresh), None),
            (Stage::Mint, Some(fresh), Some(holding)),
            (Stage::Revoke, Some(issued), Some(filled)),
            (Stage::Emit, Some(revoked), Some(filled)),
        ]
    );
}

#[test]
fn metadata_follows_the_steps() {
    let (mut run, _) = start("Sword", "SWD", "https://x/1.json", 5);
    let mut seen = Vec::new();
    loop {
        seen.push((run.stage(), run.metadata_record()));
        match run.advance(Ok::<(), String>(())) {
            Progress::Next(next, _) => run = next,
            Progress::Done(_) => break,
            Progress::Failed(f) => panic!("failed at {:?}", f.stage),
        }
    }
    let whole = nft_minter::metadata::TokenMetadata {
        update_authority: Some(authority().0),
        mint: Address::new(MINT),
        name: "Sword".into(),
        symbol: "SWD".into(),
        uri: "https://x/1.json".into(),
        additional_metadata: vec![("level".to_string(), "1".to_string())],
    };
    let bare = nft_minter::metadata::TokenMetadata { additional_metadata: Vec::new(), ..whole.clone() };
    for (stage, record) in seen {
        let expected = match stage {
            Stage::Reserve | Stage::DeclareExtension | Stage::InitializeMint | Stage::InitializeMetadata => None,
            Stage::AttachField => Some(bare.clone()),
            _ => Some(whole.clone()),
        };
        assert_eq!(record, expected, "at {:?}", stage);
    }
}

#[test]
fn a_rejected_step_ends_the_run_there() {
    let every = [
        Stage::Reserve,
        Stage::DeclareExtension,
        Stage::InitializeMint,
        Stage::InitializeMetadata,
        Stage::AttachField,
        Stage::CreateHolding,
        Stage::Mint,
        Stage::Revoke,
        Stage::Emit,
    ];
    for failing in every {
        let (mut run, _) = start("Sword", "SWD", "https://x/1.json", 5);
        let end = loop {
            let outcome = if run.stage() == failing { Err(format!("{:?} refused", failing)) } else { Ok(()) };
            match run.advance(outcome) {
                Progress::Next(next, _) => run = next,
                end => break end,
            }
        };
        match end {
            Progress::Failed(f) => {
                assert_eq!(f.stage, failing);
                match f.cause {
                    Cause::Rejected(reason) => assert_eq!(reason, format!("{:?} refused", failing)),
                    other => panic!("unexpected cause {:?}", other),
                }
            }
            other => panic!("the run went on: {:?}", other),
        }
    }
}

#[test]
fn a_zero_mint_cannot_declare_its_pointer() {
    let sized = mint_nft(context([0u8; 32]), "Sword".into(), "SWD".into(), "https://x/1.json".into()).unwrap();
    let (run, first) = sized.reserve(10);
    assert!(matches!(first, Action::Reserve { .. }));
    match run.advance(Ok::<(), String>(())) {
        Progress::Failed(f) => {
            assert_eq!(f.stage, Stage::DeclareExtension);
            match f.cause {
                Cause::Refused(e) => {
                    assert_eq!(e, anchor_lang::prelude::ProgramError::InvalidArgument)
                }
                other => panic!("unexpected cause {:?}", other),
            }
        }
        other => panic!("the run went on: {:?}", other),
    }
}

// A ledger as the host sees it, reduced to what the runs below touch. The
// real ledger commits a transaction only as a whole; `transact` does the same
// by working on a copy.

#[derive(Clone, Debug, Default, PartialEq)]
struct Ledger {
    mints: BTreeMap<[u8; 32], LedgerMint>,
    holdings: BTreeMap<[u8; 32], u64>,
    events: Vec<String>,
}

#[derive(Clone, Debug, Default, PartialEq)]
struct LedgerMint {
    initialized: bool,
    decimals: u8,
    supply: u64,
    authority: Option<[u8; 32]>,
    name: Option<String>,
    fields: Vec<(String, String)>,
}

fn perform(ledger: &mut Ledger, stage: Stage, action: &Action, fail_at: Option<Stage>) -> Result<(), String> {
    if fail_at == Some(stage) {
        return Err(format!("forced failure at {:?}", stage));
    }
    match action {
        Action::Reserve { to, .. } => {
            if ledger.mints.contains_key(&to.bytes) {
                return Err("account already exists".to_string());
            }
            ledger.mints.insert(to.bytes, LedgerMint::default());
        }
        Action::Invoke { instruction, .. } => {
            let mint = ledger.mints.get_mut(&instruction.accounts[0].pubkey.bytes).ok_or("no such mint")?;
            match stage {
                Stage::InitializeMetadata => {
                    let decoded = interface::instruction::TokenMetadataInstruction::unpack(&instruction.data)
                        .map_err(|e| e.to_string())?;
                    match decoded {
                        interface::instruction::TokenMetadataInstruction::Initialize(i) => mint.name = Some(i.name),
                        _ => return Err("not an initialize".to_string()),
                    }
                }
                Stage::AttachField => {
                    let decoded = interface::instruction::TokenMetadataInstruction::unpack(&instruction.data)
                        .map_err(|e| e.to_string())?;
                    match decoded {
                        interface::instruction::TokenMetadataInstruction::UpdateField(u) => match u.field {
                            interface::state::Field::Key(k) => mint.fields.push((k, u.value)),
                            _ => return Err("not an additional field".to_string()),
                        },
                        _ => return Err("not an update".to_string()),
                    }
                }
                _ => {}
            }
        }
        Action::InitializeMint2 { mint, decimals, mint_authority, .. } => {
            let m = ledger.mints.get_mut(&mint.bytes).ok_or("no such mint")?;
            if m.initialized {
                return Err("already initialized".to_string());
            }
            m.initialized = true;
            m.decimals = *decimals;
            m.authority = Some(mint_authority.bytes);
        }
        Action::CreateAssociatedTokenIdempotent { associated_token, .. } => {
            ledger.holdings.entry(associated_token.bytes).or_insert(0);
        }
        Action::MintTo { mint, to, authority, amount, .. } => {
            let m = ledger.mints.get_mut(&mint.bytes).ok_or("no such mint")?;
            if m.authority != Some(authority.bytes) {
                return Err("authority mismatch".to_string());
            }
            m.supply += amount;
            *ledger.holdings.get_mut(&to.bytes).ok_or("no such holding")? += amount;
        }
        Action::SetAuthority { account_or_mint, current_authority, new_authority, .. } => {
            let m = ledger.mints.get_mut(&account_or_mint.bytes).ok_or("no such mint")?;
            if m.authority != Some(current_authority.bytes) {
                return Err("authority mismatch".to_string());
            }
            m.authority = new_authority.map(|a| a.bytes);
        }
        Action::Emit { minted, updated } => {
            ledger.events.push(format!("minted {:?}", minted.nft_mint.bytes));
            ledger.events.push(format!("updated {:?} {}={}", updated.nft_mint.bytes, updated.field, updated.value));
        }
    }
    Ok(())
}

fn transact(ledger: &mut Ledger, mint: [u8; 32], fail_at: Option<Stage>) -> Result<Receipt, (Stage, String)> {
    let mut scratch = ledger.clone();
    let sized = mint_nft(context(mint), "Sword".into(), "SWD".into(), "https://x/1.json".into()).unwrap();
    let (mut run, mut action) = sized.reserve(3_396_480);
    loop {
        let outcome = perform(&mut scratch, run.stage(), &action, fail_at);
        match run.advance(outcome) {
            Progress::Next(next, a) => {
                run = next;
                action = a;
            }
            Progress::Done(receipt) => {
                *ledger = scratch;
                return Ok(receipt);
            }
            Progress::Failed(f) => {
                return Err((
                    f.stage,
                    match f.cause {
                        Cause::Rejected(reason) => reason,
                        Cause::Refused(e) => e.to_string(),
                    },
                ));
            }
        }
    }
}

#[test]
fn the_ledger_holds_the_token_after_a_run() {
    let mut ledger = Ledger::default();
    let receipt = transact(&mut ledger, MINT, None).unwrap();
    let mint = &ledger.mints[&MINT];
    assert_eq!(mint.decimals, 0);
    assert_eq!(mint.supply, 1);
    assert_eq!(mint.authority, None);
    assert_eq!(mint.name.as_deref(), Some("Sword"));
    assert_eq!(mint.fields, vec![("level".to_string(), "1".to_string())]);
    assert_eq!(ledger.holdings[&HOLDING], 1);
    assert_eq!(ledger.events.len(), 2);
    assert!(ledger.events.iter().all(|e| e.contains(&format!("{:?}", MINT))));
    assert_eq!(receipt.mint.supply, mint.supply);
    assert_eq!(receipt.mint.decimals, mint.decimals);
    assert_eq!(receipt.holding.amount, ledger.holdings[&HOLDING]);
    assert_eq!(receipt.metadata.additional_metadata, mint.fields);
}

#[test]
fn a_second_mint_at_the_same_address_fails() {
    let mut ledger = Ledger::default();
    transact(&mut ledger, MINT, None).unwrap();
    let after_first = ledger.clone();
    let second = transact(&mut ledger, MINT, None);
    assert_eq!(second, Err((Stage::Reserve, "account already exists".to_string())));
    assert_eq!(ledger, after_first);
    assert_eq!(ledger.mints[&MINT].supply, 1);
    assert_eq!(ledger.holdings[&HOLDING], 1);
}

#[test]
fn mints_at_different_addresses_do_not_interfere() {
    let mut ledger = Ledger::default();
    transact(&mut ledger, MINT, None).unwrap();
    transact(&mut ledger, [23u8; 32], None).unwrap();
    assert_eq!(ledger.mints.len(), 2);
    assert_eq!(ledger.mints[&MINT].supply, 1);
    assert_eq!(ledger.mints[&[23u8; 32]].supply, 1);
}

#[test]
fn a_failure_while_attaching_the_field_leaves_nothing() {
    let mut ledger = Ledger::default();
    let r = transact(&mut ledger, MINT, Some(Stage::AttachField));
    assert_eq!(r, Err((Stage::AttachField, "forced failure at AttachField".to_string())));
    assert_eq!(ledger, Ledger::default());
    assert!(ledger.mints.is_empty());
    assert!(ledger.holdings.is_empty());
    assert!(ledger.events.is_empty());
}

#[test]
fn a_failure_at_any_step_leaves_nothing() {
    for stage in [Stage::Reserve, Stage::InitializeMint, Stage::Mint, Stage::Revoke, Stage::Emit] {
        let mut ledger = Ledger::default();
        let r = transact(&mut ledger, MINT, Some(stage));
        assert_eq!(r.unwrap_err().0, stage);
        assert_eq!(ledger, Ledger::default());
    }
}

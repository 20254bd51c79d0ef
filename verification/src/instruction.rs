//! Instructions for the token program and for the metadata it embeds.
//!
//! An instruction names the program that handles it, the accounts it touches
//! and the bytes that the program decodes. The bytes built here follow two
//! layouts: the token program's one-byte instruction tags, and the metadata
//! interface's 8-byte discriminators followed by length-prefixed strings.

use crate::address::Address;
use crate::metadata::{byte_len, string_len};
use anchor_lang::prelude::Pubkey;
use anchor_lang::solana_program::program_error::ProgramError;
use anchor_spl::token_2022::spl_token_2022;
use anchor_spl::token_interface::spl_pod::optional_keys::OptionalNonZeroPubkey;
use anchor_spl::token_interface::spl_token_metadata_interface;
use vstd::bytes::{lemma_auto_spec_u32_to_from_le_bytes, spec_u32_to_le_bytes};
use vstd::prelude::*;
use vstd::utf8::encode_utf8;

verus! {

/// Length of a mint account that carries a metadata pointer: the padded base
/// account, the account-type byte and one 64-byte extension with its header.
pub const MINT_WITH_POINTER_LEN: usize = 234;

/// One account of an instruction and how the instruction uses it.
#[derive(Clone, Copy, Debug, PartialEq, Eq)]
pub struct AccountMeta {
    pub pubkey: Address,
    pub is_signer: bool,
    pub is_writable: bool,
}

/// A request to one program.
#[derive(Clone, Debug, PartialEq, Eq)]
pub struct Instruction {
    pub program_id: Address,
    pub accounts: Vec<AccountMeta>,
    pub data: Vec<u8>,
}

/// Mathematical value of an [`Instruction`].
pub struct InstructionView {
    pub program_id: Address,
    pub accounts: Seq<AccountMeta>,
    pub data: Seq<u8>,
}

impl View for Instruction {
    type V = InstructionView;

    open spec fn view(&self) -> InstructionView {
        InstructionView { program_id: self.program_id, accounts: self.accounts@, data: self.data@ }
    }
}

/// A writable account that does not sign.
pub open spec fn writable(pubkey: Address) -> AccountMeta {
    AccountMeta { pubkey, is_signer: false, is_writable: true }
}

/// A read-only account, signing or not.
pub open spec fn readonly(pubkey: Address, is_signer: bool) -> AccountMeta {
    AccountMeta { pubkey, is_signer, is_writable: false }
}

/// The address of the extensible token program, as bytes.
pub const TOKEN_2022_PROGRAM_ID: [u8; 32] = [
    6, 221, 246, 225, 238, 117, 143, 222, 24, 66, 93, 188, 228, 108, 205, 218, 182, 26, 252, 77,
    131, 185, 13, 39, 254, 189, 249, 40, 216, 161, 139, 252,
];

/// The address of the extensible token program.
pub open spec fn token_2022_address() -> Address {
    Address { bytes: TOKEN_2022_PROGRAM_ID }
}

/// A string as the metadata interface encodes it: the number of its UTF-8
/// bytes in 4 little-endian bytes, then the bytes.
pub open spec fn encoded_string(s: Seq<char>) -> Seq<u8> {
    spec_u32_to_le_bytes(byte_len(s) as u32) + encode_utf8(s)
}

/// An optional address in 32 bytes, all zero for `None`.
pub open spec fn encoded_optional_address(address: Option<Address>) -> Seq<u8> {
    match address {
        Some(a) => a@,
        None => Seq::new(32, |i: int| 0u8),
    }
}

/// Whether an optional address can be encoded: `Some` of the all-zero address
/// cannot, since that is how `None` is written.
pub open spec fn encodable(address: Option<Address>) -> bool {
    address matches Some(a) ==> !a.spec_is_zero()
}

/// Whether the token program's builder accepts the arguments of a metadata
/// pointer: the program must be the token program itself, and both optional
/// addresses encodable.
pub open spec fn pointer_accepted(
    token_program_id: Address,
    authority: Option<Address>,
    metadata_address: Option<Address>,
) -> bool {
    token_program_id == token_2022_address() && encodable(authority) && encodable(metadata_address)
}

/// The instruction that declares where a mint's metadata lives.
pub open spec fn pointer_initialize(
    token_program_id: Address,
    mint: Address,
    authority: Option<Address>,
    metadata_address: Option<Address>,
) -> InstructionView {
    InstructionView {
        program_id: token_program_id,
        accounts: seq![writable(mint)],
        data: seq![39u8, 0u8] + encoded_optional_address(authority) + encoded_optional_address(
            metadata_address,
        ),
    }
}

/// The instruction that writes name, symbol and URI into a metadata account.
pub open spec fn metadata_initialize(
    program_id: Address,
    metadata: Address,
    update_authority: Address,
    mint: Address,
    mint_authority: Address,
    name: Seq<char>,
    symbol: Seq<char>,
    uri: Seq<char>,
) -> InstructionView {
    InstructionView {
        program_id,
        accounts: seq![
            writable(metadata),
            readonly(update_authority, false),
            readonly(mint, false),
            readonly(mint_authority, true),
        ],
        data: seq![210u8, 225u8, 30u8, 162u8, 88u8, 184u8, 77u8, 141u8] + encoded_string(name)
            + encoded_string(symbol) + encoded_string(uri),
    }
}

/// The instruction that sets the additional field `key` of a metadata
/// account. The byte 3 behind the discriminator selects a field by its key.
pub open spec fn metadata_update_field(
    program_id: Address,
    metadata: Address,
    update_authority: Address,
    key: Seq<char>,
    value: Seq<char>,
) -> InstructionView {
    InstructionView {
        program_id,
        accounts: seq![writable(metadata), readonly(update_authority, true)],
        data: seq![221u8, 233u8, 49u8, 45u8, 181u8, 202u8, 220u8, 200u8, 3u8] + encoded_string(key)
            + encoded_string(value),
    }
}

/// What the instructions carry is what the payload is sized by: an encoded
/// string has the length that the size calculation counts for it, and so the
/// strings of a metadata instruction take as many bytes behind its
/// discriminator as they take in the stored payload.
pub proof fn lemma_encoded_lengths(
    program_id: Address,
    metadata: Address,
    authority: Address,
    name: Seq<char>,
    symbol: Seq<char>,
    uri: Seq<char>,
)
    ensures
        encoded_string(name).len() == string_len(name),
        metadata_initialize(
            program_id,
            metadata,
            authority,
            metadata,
            authority,
            name,
            symbol,
            uri,
        ).data.len() == 8 + string_len(name) + string_len(symbol) + string_len(uri),
        metadata_update_field(program_id, metadata, authority, name, symbol).data.len() == 9
            + string_len(name) + string_len(symbol),
        pointer_initialize(program_id, metadata, Some(authority), Some(metadata)).data.len() == 66,
{
    lemma_auto_spec_u32_to_from_le_bytes();
}

/// Reads the token program's own address, `spl_token_2022::ID`.
#[verifier::external_body]
pub(crate) fn token_2022_program_id() -> (id: Address)
    ensures
        id == token_2022_address(),
{
    Address { bytes: spl_token_2022::ID.to_bytes() }
}

/// Calls `OptionalNonZeroPubkey::try_from` on `Some(address)`, which accepts
/// every address but the all-zero one.
#[verifier::external_body]
pub(crate) fn check_non_zero(address: &Address) -> (r: Result<(), ProgramError>)
    ensures
        r is Ok <==> !address.spec_is_zero(),
{
    let key: Option<Pubkey> = Some(address.bytes.into());
    OptionalNonZeroPubkey::try_from(key).map(|_| ())
}

/// Calls `ExtensionType::try_calculate_account_len` for a mint with the
/// metadata pointer as its only extension. The pointer has a fixed length, so
/// the call succeeds and gives the length stated.
#[verifier::external_body]
pub(crate) fn mint_with_pointer_len() -> (r: Result<usize, ProgramError>)
    ensures
        match r {
            Ok(n) => n == MINT_WITH_POINTER_LEN,
            Err(_) => false,
        },
{
    let extensions = [spl_token_2022::extension::ExtensionType::MetadataPointer];
    spl_token_2022::extension::ExtensionType::try_calculate_account_len::<
        spl_token_2022::state::Mint,
    >(&extensions)
}

/// Calls the token program's `metadata_pointer::instruction::initialize`. It
/// refuses a program address other than the token program's own and an
/// all-zero authority or metadata address; otherwise it addresses the mint as
/// the one writable account and encodes the two optional addresses behind the
/// tags 39 and 0.
#[verifier::external_body]
pub(crate) fn build_pointer_initialize(
    token_program_id: &Address,
    mint: &Address,
    authority: Option<Address>,
    metadata_address: Option<Address>,
) -> (r: Result<Instruction, ProgramError>)
    ensures
        match r {
            Ok(ix) => pointer_accepted(*token_program_id, authority, metadata_address) && ix@
                == pointer_initialize(*token_program_id, *mint, authority, metadata_address),
            Err(_) => !pointer_accepted(*token_program_id, authority, metadata_address),
        },
{
    let ix = spl_token_2022::extension::metadata_pointer::instruction::initialize(
        &token_program_id.bytes.into(),
        &mint.bytes.into(),
        authority.map(|a| a.bytes.into()),
        metadata_address.map(|a| a.bytes.into()),
    )?;
    let accounts = ix.accounts.iter().map(|m| AccountMeta {
        pubkey: Address { bytes: m.pubkey.to_bytes() },
        is_signer: m.is_signer,
        is_writable: m.is_writable,
    });
    let program_id = Address { bytes: ix.program_id.to_bytes() };
    Ok(Instruction { program_id, accounts: accounts.collect(), data: ix.data })
}

/// Calls the metadata interface's `instruction::initialize`, which addresses
/// the metadata account as writable, the update authority and the mint as
/// read-only and the mint authority as signer, and encodes the three strings
/// behind the interface's discriminator. It needs each string's length to fit
/// the 4-byte prefix.
#[verifier::external_body]
pub(crate) fn build_metadata_initialize(
    program_id: &Address,
    metadata: &Address,
    update_authority: &Address,
    mint: &Address,
    mint_authority: &Address,
    name: String,
    symbol: String,
    uri: String,
) -> (ix: Instruction)
    requires
        byte_len(name@) <= u32::MAX,
        byte_len(symbol@) <= u32::MAX,
        byte_len(uri@) <= u32::MAX,
    ensures
        ix@ == metadata_initialize(
            *program_id,
            *metadata,
            *update_authority,
            *mint,
            *mint_authority,
            name@,
            symbol@,
            uri@,
        ),
{
    let ix = spl_token_metadata_interface::instruction::initialize(
        &program_id.bytes.into(), &metadata.bytes.into(), &update_authority.bytes.into(),
        &mint.bytes.into(), &mint_authority.bytes.into(), name, symbol, uri,
    );
    let accounts = ix.accounts.iter().map(|m| AccountMeta {
        pubkey: Address { bytes: m.pubkey.to_bytes() },
        is_signer: m.is_signer,
        is_writable: m.is_writable,
    });
    let program_id = Address { bytes: ix.program_id.to_bytes() };
    Instruction { program_id, accounts: accounts.collect(), data: ix.data }
}

/// Calls the metadata interface's `instruction::update_field` for the
/// additional field `key`, which addresses the metadata account as writable
/// and the update authority as signer, and encodes the field selector and the
/// value behind the interface's discriminator. It needs each string's length
/// to fit the 4-byte prefix.
#[verifier::external_body]
pub(crate) fn build_metadata_update_field(
    program_id: &Address,
    metadata: &Address,
    update_authority: &Address,
    key: String,
    value: String,
) -> (ix: Instruction)
    requires
        byte_len(key@) <= u32::MAX,
        byte_len(value@) <= u32::MAX,
    ensures
        ix@ == metadata_update_field(*program_id, *metadata, *update_authority, key@, value@),
{
    let field = spl_token_metadata_interface::state::Field::Key(key);
    let ix = spl_token_metadata_interface::instruction::update_field(
        &program_id.bytes.into(), &metadata.bytes.into(), &update_authority.bytes.into(),
        field, value,
    );
    let accounts = ix.accounts.iter().map(|m| AccountMeta {
        pubkey: Address { bytes: m.pubkey.to_bytes() },
        is_signer: m.is_signer,
        is_writable: m.is_writable,
    });
    let program_id = Address { bytes: ix.program_id.to_bytes() };
    Instruction { program_id, accounts: accounts.collect(), data: ix.data }
}

} // verus!

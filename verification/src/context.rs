//! What an entry point is called with.

use crate::address::Address;
use anchor_lang::prelude::Pubkey;
use vstd::prelude::*;

verus! {

/// The text that the ledger's tools print for an address: its 32 bytes as a
/// number in base 58.
pub uninterp spec fn base58_text(bytes: Seq<u8>) -> Seq<char>;

/// The address of the executing program and the accounts handed to one of its
/// entry points.
#[derive(Clone, Copy, Debug, PartialEq, Eq)]
pub struct Context<T> {
    pub program_id: Address,
    pub accounts: T,
}

/// Formats the address as `Pubkey`'s `Debug` does, which writes it in base 58.
#[verifier::external_body]
fn debug_text(address: &Address) -> (text: String)
    ensures
        text@ == base58_text(address@),
{
    format!("{:?}", Pubkey::new_from_array(address.bytes))
}

/// The line with which a diagnostic entry point reports where it runs.
pub open spec fn spec_greeting(program_id: Address) -> Seq<char> {
    "Greetings from: "@ + base58_text(program_id@)
}

/// The line with which a diagnostic entry point reports where it runs.
pub fn greeting(program_id: &Address) -> (line: String)
    ensures
        line@ == spec_greeting(*program_id),
{
    let text = debug_text(program_id);
    String::from_str("Greetings from: ").concat(text.as_str())
}

} // verus!

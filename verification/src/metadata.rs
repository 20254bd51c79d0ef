//! The metadata payload of a token and the size it occupies once stored.
//!
//! The payload is stored as one type-length-value entry whose value is the
//! payload in a length-prefixed encoding: two fixed 32-byte addresses, then
//! each string as a 4-byte length followed by its UTF-8 bytes, then the number
//! of additional pairs as 4 bytes followed by the pairs' strings.

use crate::address::Address;
use crate::error::MintError;
use anchor_lang::prelude::Pubkey;
use anchor_lang::solana_program::program_error::ProgramError;
use anchor_spl::token_interface::spl_pod::optional_keys::OptionalNonZeroPubkey;
use vstd::prelude::*;
use vstd::utf8::encode_utf8;

verus! {

/// Bytes of the type tag and length field that precede a stored entry's value.
pub const TLV_HEADER_LEN: usize = 12;

/// Bytes of the length prefix written before a string or a list.
pub const LENGTH_PREFIX_LEN: usize = 4;

/// Bytes of the payload that do not depend on its strings: the update
/// authority, the mint and the count of additional pairs.
pub const FIXED_PAYLOAD_LEN: usize = 68;

/// Number of bytes in the UTF-8 encoding of `s`.
pub open spec fn byte_len(s: Seq<char>) -> nat {
    encode_utf8(s).len()
}

/// Encoded size of one string: its length prefix and its bytes.
pub open spec fn string_len(s: Seq<char>) -> nat {
    LENGTH_PREFIX_LEN as nat + byte_len(s)
}

/// Encoded size of a sequence of key-value pairs, without the leading count.
pub open spec fn pairs_len(pairs: Seq<(Seq<char>, Seq<char>)>) -> nat
    decreases pairs.len(),
{
    if pairs.len() == 0 {
        0
    } else {
        pairs_len(pairs.drop_last()) + string_len(pairs.last().0) + string_len(pairs.last().1)
    }
}

/// The pairs of a vector of owned strings, as sequences of characters.
pub open spec fn pairs_view(pairs: Seq<(String, String)>) -> Seq<(Seq<char>, Seq<char>)> {
    Seq::new(pairs.len(), |i: int| (pairs[i].0@, pairs[i].1@))
}

/// Name, symbol, content URI and additional key-value pairs of a token,
/// together with the mint they describe and who may update them.
#[derive(Clone, Debug, PartialEq, Eq)]
pub struct TokenMetadata {
    /// Who may change the metadata; `None` once nobody can.
    pub update_authority: Option<Address>,
    /// The mint that the metadata belongs to.
    pub mint: Address,
    /// The longer name of the token.
    pub name: String,
    /// The shortened symbol of the token.
    pub symbol: String,
    /// Where richer, off-ledger metadata is found.
    pub uri: String,
    /// Additional pairs, in the order in which they were attached.
    pub additional_metadata: Vec<(String, String)>,
}

/// Mathematical value of a [`TokenMetadata`].
pub struct TokenMetadataView {
    pub update_authority: Option<Address>,
    pub mint: Address,
    pub name: Seq<char>,
    pub symbol: Seq<char>,
    pub uri: Seq<char>,
    pub additional_metadata: Seq<(Seq<char>, Seq<char>)>,
}

impl View for TokenMetadata {
    type V = TokenMetadataView;

    open spec fn view(&self) -> TokenMetadataView {
        TokenMetadataView {
            update_authority: self.update_authority,
            mint: self.mint,
            name: self.name@,
            symbol: self.symbol@,
            uri: self.uri@,
            additional_metadata: pairs_view(self.additional_metadata@),
        }
    }
}

impl TokenMetadataView {
    /// Size of the encoded payload.
    pub open spec fn packed_len(self) -> nat {
        FIXED_PAYLOAD_LEN as nat + string_len(self.name) + string_len(self.symbol) + string_len(
            self.uri,
        ) + pairs_len(self.additional_metadata)
    }

    /// Size of the payload as a stored entry: header and encoded payload.
    pub open spec fn tlv_size(self) -> nat {
        TLV_HEADER_LEN as nat + self.packed_len()
    }

    /// Bytes set aside for the payload in an account that is created before
    /// the payload is written into it: the stored size less one length prefix.
    pub open spec fn space(self) -> nat {
        (self.tlv_size() - LENGTH_PREFIX_LEN) as nat
    }

    /// Whether every length that the encoding writes fits its 4-byte prefix.
    pub open spec fn serializable(self) -> bool {
        &&& byte_len(self.name) <= u32::MAX
        &&& byte_len(self.symbol) <= u32::MAX
        &&& byte_len(self.uri) <= u32::MAX
        &&& self.additional_metadata.len() <= u32::MAX
        &&& forall|i: int|
            0 <= i < self.additional_metadata.len() ==> byte_len(
                #[trigger] self.additional_metadata[i].0,
            ) <= u32::MAX && byte_len(self.additional_metadata[i].1) <= u32::MAX
    }
}

/// The pairs before any position weigh no more than all the pairs.
pub proof fn lemma_pairs_len_prefix(pairs: Seq<(Seq<char>, Seq<char>)>, n: int)
    requires
        0 <= n <= pairs.len(),
    ensures
        pairs_len(pairs.take(n)) <= pairs_len(pairs),
    decreases pairs.len(),
{
    if n == pairs.len() {
        assert(pairs.take(n) =~= pairs);
    } else {
        assert(pairs.drop_last().take(n) =~= pairs.take(n));
        lemma_pairs_len_prefix(pairs.drop_last(), n);
    }
}

/// Taking one more pair adds the encoded size of that pair's two strings.
pub proof fn lemma_pairs_len_step(pairs: Seq<(Seq<char>, Seq<char>)>, n: int)
    requires
        0 <= n < pairs.len(),
    ensures
        pairs_len(pairs.take(n + 1)) == pairs_len(pairs.take(n)) + string_len(pairs[n].0)
            + string_len(pairs[n].1),
{
    assert(pairs.take(n + 1).drop_last() =~= pairs.take(n));
}

/// The stored size never shrinks when fields grow: if every string of `b` has
/// at least as many bytes as the string of `a` in the same place, and `b` has
/// at least as many additional pairs, then `b` is stored in at least as many
/// bytes as `a`.
pub proof fn lemma_tlv_size_monotone(a: TokenMetadataView, b: TokenMetadataView)
    requires
        byte_len(a.name) <= byte_len(b.name),
        byte_len(a.symbol) <= byte_len(b.symbol),
        byte_len(a.uri) <= byte_len(b.uri),
        a.additional_metadata.len() <= b.additional_metadata.len(),
        forall|i: int|
            0 <= i < a.additional_metadata.len() ==> byte_len(
                #[trigger] a.additional_metadata[i].0,
            ) <= byte_len(b.additional_metadata[i].0) && byte_len(a.additional_metadata[i].1)
                <= byte_len(b.additional_metadata[i].1),
    ensures
        a.packed_len() <= b.packed_len(),
        a.tlv_size() <= b.tlv_size(),
{
    lemma_pairs_len_monotone(a.additional_metadata, b.additional_metadata);
}

/// Pairwise longer strings, and possibly more pairs, weigh at least as much.
pub proof fn lemma_pairs_len_monotone(
    a: Seq<(Seq<char>, Seq<char>)>,
    b: Seq<(Seq<char>, Seq<char>)>,
)
    requires
        a.len() <= b.len(),
        forall|i: int|
            0 <= i < a.len() ==> byte_len(#[trigger] a[i].0) <= byte_len(b[i].0) && byte_len(
                a[i].1,
            ) <= byte_len(b[i].1),
    ensures
        pairs_len(a) <= pairs_len(b),
    decreases a.len(),
{
    if a.len() == 0 {
    } else {
        let n = a.len() - 1;
        let a0 = a.drop_last();
        let b0 = b.take(n);
        assert forall|i: int| 0 <= i < a0.len() implies byte_len(#[trigger] a0[i].0) <= byte_len(
            b0[i].0,
        ) && byte_len(a0[i].1) <= byte_len(b0[i].1) by {
            assert(a0[i] == a[i]);
            assert(b0[i] == b[i]);
        }
        lemma_pairs_len_monotone(a0, b0);
        assert(byte_len(a[n].0) <= byte_len(b[n].0));
        lemma_pairs_len_step(b, n);
        lemma_pairs_len_prefix(b, n + 1);
    }
}

/// The space set aside for a payload is its encoded size and 8 bytes more,
/// however many additional pairs it has: the payload fits it together with a
/// header of up to 8 bytes.
pub proof fn lemma_space_covers_payload(m: TokenMetadataView)
    ensures
        m.space() == m.packed_len() + 8,
        m.space() + LENGTH_PREFIX_LEN == m.tlv_size(),
        m.packed_len() >= FIXED_PAYLOAD_LEN + 3 * LENGTH_PREFIX_LEN,
{
}

/// Adds the encoded size of `s` to `total`, or reports that the sum does not
/// fit a `usize`.
fn add_string_len(total: usize, s: &String) -> (r: Option<usize>)
    ensures
        r == (if total + string_len(s@) <= usize::MAX {
            Some((total + string_len(s@)) as usize)
        } else {
            None
        }),
{
    let bytes = s.as_str().as_bytes();
    assert(bytes@.len() == byte_len(s@));
    match total.checked_add(LENGTH_PREFIX_LEN) {
        Some(t) => t.checked_add(bytes.len()),
        None => None,
    }
}

/// Calls `TokenMetadata::tlv_size_of` of the token-metadata interface crate on
/// a copy of `m`. That function counts the bytes its serializer writes and adds
/// the entry header; the serializer refuses a string or a list whose length does
/// not fit 32 bits. The count is kept in a `usize`, so payloads whose size
/// exceeds it are left out.
#[verifier::external_body]
fn interface_tlv_size_of(m: &TokenMetadata) -> (r: Result<usize, ProgramError>)
    requires
        m@.tlv_size() <= usize::MAX,
    ensures
        match r {
            Ok(n) => m@.serializable() && n == m@.tlv_size(),
            Err(_) => !m@.serializable(),
        },
{
    let authority = m.update_authority.map(|a| Pubkey::new_from_array(a.bytes));
    anchor_spl::token_interface::spl_token_metadata_interface::state::TokenMetadata {
        update_authority: OptionalNonZeroPubkey(authority.unwrap_or_default()),
        mint: Pubkey::new_from_array(m.mint.bytes),
        name: m.name.clone(),
        symbol: m.symbol.clone(),
        uri: m.uri.clone(),
        additional_metadata: m.additional_metadata.clone(),
    }.tlv_size_of()
}

impl TokenMetadata {
    /// The size of the payload as a stored entry, if a `usize` can hold it.
    pub fn measure(&self) -> (r: Option<usize>)
        ensures
            r == (if self@.tlv_size() <= usize::MAX {
                Some(self@.tlv_size() as usize)
            } else {
                None
            }),
    {
        let ghost pairs = self@.additional_metadata;
        let base: usize = TLV_HEADER_LEN + FIXED_PAYLOAD_LEN;
        let with_name = match add_string_len(base, &self.name) {
            Some(t) => t,
            None => {
                return None;
            },
        };
        let with_symbol = match add_string_len(with_name, &self.symbol) {
            Some(t) => t,
            None => {
                return None;
            },
        };
        let mut total = match add_string_len(with_symbol, &self.uri) {
            Some(t) => t,
            None => {
                return None;
            },
        };
        let ghost head = total as nat;
        let mut i: usize = 0;
        while i < self.additional_metadata.len()
            invariant
                i <= self.additional_metadata.len(),
                pairs == self@.additional_metadata,
                head == TLV_HEADER_LEN + FIXED_PAYLOAD_LEN + string_len(self@.name) + string_len(
                    self@.symbol,
                ) + string_len(self@.uri),
                total == head + pairs_len(pairs.take(i as int)),
            decreases self.additional_metadata.len() - i,
        {
            let pair = &self.additional_metadata[i];
            proof {
                lemma_pairs_len_step(pairs, i as int);
                lemma_pairs_len_prefix(pairs, i + 1);
            }
            let with_key = match add_string_len(total, &pair.0) {
                Some(t) => t,
                None => {
                    return None;
                },
            };
            total = match add_string_len(with_key, &pair.1) {
                Some(t) => t,
                None => {
                    return None;
                },
            };
            i += 1;
        }
        assert(pairs.take(i as int) =~= pairs);
        Some(total)
    }

    /// The total size of the payload as a stored entry in an account.
    ///
    /// Fails with [`MintError::PayloadTooLarge`] exactly when the size exceeds
    /// `usize`, and otherwise with [`MintError::Unserializable`] exactly when
    /// some length does not fit the encoding's 4-byte prefix.
    pub fn tlv_size_of(&self) -> (r: Result<usize, MintError>)
        ensures
            match r {
                Ok(n) => self@.serializable() && n == self@.tlv_size(),
                Err(MintError::PayloadTooLarge) => self@.tlv_size() > usize::MAX,
                Err(MintError::Unserializable(_)) => self@.tlv_size() <= usize::MAX
                    && !self@.serializable(),
                Err(_) => false,
            },
    {
        if self.measure().is_none() {
            return Err(MintError::PayloadTooLarge);
        }
        match interface_tlv_size_of(self) {
            Ok(n) => Ok(n),
            Err(e) => Err(MintError::Unserializable(e)),
        }
    }

    /// The bytes to set aside for the payload in an account that is created
    /// before the payload is written into it. Fails as
    /// [`TokenMetadata::tlv_size_of`] does.
    pub fn space(&self) -> (r: Result<usize, MintError>)
        ensures
            match r {
                Ok(n) => self@.serializable() && n == self@.space(),
                Err(MintError::PayloadTooLarge) => self@.tlv_size() > usize::MAX,
                Err(MintError::Unserializable(_)) => self@.tlv_size() <= usize::MAX
                    && !self@.serializable(),
                Err(_) => false,
            },
    {
        match self.tlv_size_of() {
            Ok(n) => Ok(n - LENGTH_PREFIX_LEN),
            Err(e) => Err(e),
        }
    }
}

} // verus!

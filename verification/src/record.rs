//! The ledger records that a mint creates and changes.
//!
//! A non-fungible token is a mint record with no decimal places of which
//! exactly one unit was issued and whose issuance authority is gone for good.

use crate::address::Address;
use vstd::prelude::*;

verus! {

/// Who may issue new units of a mint. Revocation is the only change there is,
/// and nothing leads back from it.
#[derive(Clone, Copy, Debug, PartialEq, Eq)]
pub enum IssuanceAuthority {
    /// The address that co-signs every issuance.
    Active(Address),
    /// Nobody: the supply is capped where it stands.
    Revoked,
}

impl IssuanceAuthority {
    /// The authority after revocation, whatever it was before.
    pub open spec fn spec_revoke(self) -> IssuanceAuthority {
        IssuanceAuthority::Revoked
    }

    /// Gives the authority up.
    pub fn revoke(self) -> (r: IssuanceAuthority)
        ensures
            r == self.spec_revoke(),
    {
        IssuanceAuthority::Revoked
    }

    /// Whether an authority is still in place.
    pub fn is_active(&self) -> (b: bool)
        ensures
            b == (*self is Active),
    {
        match self {
            IssuanceAuthority::Active(_) => true,
            IssuanceAuthority::Revoked => false,
        }
    }
}

/// The supply side of a token: who may issue and freeze, how finely units
/// divide and how many exist.
#[derive(Clone, Copy, Debug, PartialEq, Eq)]
pub struct MintRecord {
    pub address: Address,
    pub mint_authority: IssuanceAuthority,
    pub freeze_authority: Option<Address>,
    pub decimals: u8,
    pub supply: u64,
}

impl MintRecord {
    /// What holds of every mint of this library: units are indivisible and at
    /// most one exists.
    pub open spec fn wf(self) -> bool {
        self.decimals == 0 && self.supply <= 1
    }

    /// Whether the mint is a finished non-fungible token.
    pub open spec fn is_nft(self) -> bool {
        self.decimals == 0 && self.supply == 1 && self.mint_authority is Revoked
    }

    /// A fresh mint: indivisible, nothing issued, `authority` in charge.
    pub open spec fn spec_initialize(
        address: Address,
        authority: Address,
        freeze_authority: Option<Address>,
    ) -> MintRecord {
        MintRecord {
            address,
            mint_authority: IssuanceAuthority::Active(authority),
            freeze_authority,
            decimals: 0,
            supply: 0,
        }
    }

    /// The mint after its single unit was issued, or `None` where issuing is
    /// not possible: the authority is gone, or the unit exists already.
    pub open spec fn spec_issue(self) -> Option<MintRecord> {
        if self.mint_authority is Active && self.supply == 0 {
            Some(MintRecord { supply: 1, ..self })
        } else {
            None
        }
    }

    /// The mint with its issuance authority revoked.
    pub open spec fn spec_revoke(self) -> MintRecord {
        MintRecord { mint_authority: self.mint_authority.spec_revoke(), ..self }
    }

    /// Initializes a mint with zero decimal places.
    pub fn initialize(
        address: Address,
        authority: Address,
        freeze_authority: Option<Address>,
    ) -> (m: MintRecord)
        ensures
            m == MintRecord::spec_initialize(address, authority, freeze_authority),
            m.wf(),
    {
        MintRecord {
            address,
            mint_authority: IssuanceAuthority::Active(authority),
            freeze_authority,
            decimals: 0,
            supply: 0,
        }
    }

    /// Issues the mint's one unit.
    pub fn issue(self) -> (r: Option<MintRecord>)
        ensures
            r == self.spec_issue(),
            self.wf() && r is Some ==> r->0.wf(),
    {
        if self.mint_authority.is_active() && self.supply == 0 {
            Some(
                MintRecord {
                    address: self.address,
                    mint_authority: self.mint_authority,
                    freeze_authority: self.freeze_authority,
                    decimals: self.decimals,
                    supply: 1,
                },
            )
        } else {
            None
        }
    }

    /// Revokes the issuance authority.
    pub fn revoke(self) -> (m: MintRecord)
        ensures
            m == self.spec_revoke(),
            self.wf() ==> m.wf(),
    {
        MintRecord {
            address: self.address,
            mint_authority: self.mint_authority.revoke(),
            freeze_authority: self.freeze_authority,
            decimals: self.decimals,
            supply: self.supply,
        }
    }
}

/// A balance of one mint's units, kept for one owner.
#[derive(Clone, Copy, Debug, PartialEq, Eq)]
pub struct HoldingRecord {
    pub address: Address,
    pub mint: Address,
    pub owner: Address,
    pub amount: u64,
}

/// Revocation cannot be undone: a mint without issuance authority issues
/// nothing, and stays without authority under every change there is.
pub proof fn lemma_revocation_is_final(m: MintRecord)
    requires
        m.mint_authority is Revoked,
    ensures
        m.spec_issue() is None,
        m.spec_revoke().mint_authority is Revoked,
        m.spec_revoke() == m,
{
}

/// Every change keeps a mint indivisible and its supply at one unit at most,
/// and issuing leaves the authority as it was.
pub proof fn lemma_changes_keep_wf(m: MintRecord)
    requires
        m.wf(),
    ensures
        m.spec_revoke().wf(),
        m.spec_issue() matches Some(n) ==> n.wf() && n.supply == 1 && n.mint_authority
            == m.mint_authority,
        m.spec_revoke().supply == m.supply,
{
}

} // verus!

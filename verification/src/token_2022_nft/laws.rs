//! What holds of every mint.

use super::model::{
    level_field, payload, sizing, ActionView, CauseView, MintingView, ProgressView, SizedView,
};
use super::{AuthorityType, MintNft, Stage};
use crate::context::Context;
use crate::instruction::MINT_WITH_POINTER_LEN;
use crate::metadata::{byte_len, lemma_tlv_size_monotone};
use vstd::prelude::*;

verus! {

/// A run in which every step succeeds leaves a non-fungible token: a mint
/// with zero decimal places, exactly one unit, no issuance authority, and
/// metadata that holds exactly the supplied name, symbol and URI and the
/// field `level` with the value `1`. The unit lies in the recipient's holding.
///
/// The mint must not be the all-zero address, for which the metadata pointer
/// cannot be declared.
pub proof fn lemma_completed_run_yields_nft(
    ctx: Context<MintNft>,
    name: Seq<char>,
    symbol: Seq<char>,
    uri: Seq<char>,
    lamports: u64,
)
    requires
        sizing(ctx, name, symbol, uri) is Sized,
        !ctx.accounts.mint.spec_is_zero(),
    ensures
        ({
            let run = sizing(ctx, name, symbol, uri)->Sized_0.funded(lamports);
            &&& run.complete() matches ProgressView::Done(receipt)
            &&& receipt.mint.is_nft()
            &&& receipt.mint.address == ctx.accounts.mint
            &&& receipt.metadata.name == name
            &&& receipt.metadata.symbol == symbol
            &&& receipt.metadata.uri == uri
            &&& receipt.metadata.additional_metadata == seq![level_field()]
            &&& receipt.metadata == payload(ctx.accounts, name, symbol, uri)
            &&& receipt.holding.address == ctx.accounts.token_account
            &&& receipt.holding.mint == ctx.accounts.mint
            &&& receipt.holding.amount == 1
        }),
{
    let v = sizing(ctx, name, symbol, uri)->Sized_0.funded(lamports);
    assert(v.pointer_encodable());
    reveal_with_fuel(MintingView::complete, 10);
    assert(v.at(Stage::Emit).complete() == ProgressView::<()>::Done(v.receipt()));
}

/// At every step the mint, once it exists, has zero decimal places and at
/// most one unit, and the recipient's holding has what was issued. Metadata
/// and holding exist only where the mint does.
pub proof fn lemma_supply_never_exceeds_one(v: MintingView)
    ensures
        v.mint_record() matches Some(m) ==> m.wf() && m.address == v.accounts.mint,
        v.holding() matches Some(h) ==> v.mint_record() matches Some(m) && h.amount == m.supply,
        v.metadata_record() is Some ==> v.mint_record() is Some,
{
}

/// The last step leaves what the receipt reports: the records before the
/// events are emitted are those of the completed token.
pub proof fn lemma_receipt_is_the_last_state(v: MintingView)
    ensures
        v.at(Stage::Emit).mint_record() == Some(v.receipt().mint),
        v.at(Stage::Emit).metadata_record() == Some(v.receipt().metadata),
        v.at(Stage::Emit).holding() == Some(v.receipt().holding),
{
}

/// Once the issuance authority is revoked it stays revoked at every later
/// step, and the supply stays what it was.
pub proof fn lemma_revocation_persists(v: MintingView, earlier: Stage, later: Stage)
    requires
        earlier.index() <= later.index(),
        v.at(earlier).mint_record() matches Some(m) && m.mint_authority is Revoked,
    ensures
        v.at(later).mint_record() matches Some(n) && n.mint_authority is Revoked && n.supply == 1,
{
}

/// Units are issued at one step only, and there one unit; the authority is
/// changed at one step only, and there revoked.
pub proof fn lemma_one_unit_is_issued_once(v: MintingView)
    ensures
        v.action() matches Some(ActionView::MintTo { amount, mint, to, .. }) ==> v.stage
            == Stage::Mint && amount == 1 && mint == v.accounts.mint && to
            == v.accounts.token_account,
        v.stage == Stage::Mint ==> v.action() matches Some(ActionView::MintTo { .. }),
        v.action() matches Some(ActionView::SetAuthority { new_authority, authority_type, .. })
            ==> v.stage == Stage::Revoke && new_authority is None && authority_type
            == AuthorityType::MintTokens,
        v.action() matches Some(ActionView::InitializeMint2 { decimals, .. }) ==> decimals == 0,
{
}

/// Every run begins by creating the account at the mint's address, and no
/// later step creates it. Two runs for the same mint therefore ask the ledger
/// for the same account, and its check that the account does not exist yet
/// lets at most one of them pass.
pub proof fn lemma_run_starts_by_reserving_the_mint(s: SizedView, lamports: u64, later: Stage)
    ensures
        s.funded(lamports).stage == Stage::Reserve,
        s.funded(lamports).action() matches Some(
            ActionView::Reserve { to, space, lamports: paid, .. },
        ) && to == s.accounts.mint && space == s.mint_space as u64 && paid == lamports,
        later != Stage::Reserve ==> !(s.funded(lamports).at(later).action() matches Some(
            ActionView::Reserve { .. },
        )),
{
}

/// A step that the host reports as failed ends the run at that step, whatever
/// the step: no further action is named and no token is reported.
pub proof fn lemma_rejection_ends_run<E>(v: MintingView, reason: E)
    ensures
        v.advance(Err::<(), E>(reason)) == ProgressView::Failed(
            v.stage,
            CauseView::Rejected(reason),
        ),
{
}

/// A success never skips a step: the run goes on at the step after the
/// awaited one with the action of that step, or completes after the last.
pub proof fn lemma_success_moves_one_step<E>(v: MintingView)
    ensures
        match v.advance(Ok::<(), E>(())) {
            ProgressView::Next(m, a) => v.stage.spec_next() == Some(m.stage) && m == v.at(m.stage)
                && m.action() == Some(a) && m.stage.index() == v.stage.index() + 1,
            ProgressView::Done(r) => v.stage == Stage::Emit && r == v.receipt(),
            ProgressView::Failed(s, c) => v.stage == Stage::Reserve && s == Stage::DeclareExtension
                && c == CauseView::<E>::Refused && !v.pointer_encodable(),
        },
{
}

/// The sized account is funded for the mint account's own length, for the
/// encoded payload and for 8 bytes more: what is written into the account
/// after its creation fits what was paid for.
pub proof fn lemma_funded_len_covers_payload(
    ctx: Context<MintNft>,
    name: Seq<char>,
    symbol: Seq<char>,
    uri: Seq<char>,
)
    requires
        sizing(ctx, name, symbol, uri) is Sized,
    ensures
        ({
            let s = sizing(ctx, name, symbol, uri)->Sized_0;
            &&& s.wf()
            &&& s.mint_space == MINT_WITH_POINTER_LEN
            &&& s.metadata == payload(ctx.accounts, name, symbol, uri)
            &&& s.metadata_space == s.metadata.space()
            &&& s.funded_len() == MINT_WITH_POINTER_LEN + s.metadata.packed_len() + 8
        }),
{
    let p = payload(ctx.accounts, name, symbol, uri);
    assert(p.additional_metadata.len() == 1);
}

/// The funded length never shrinks when the supplied strings grow.
pub proof fn lemma_funded_len_monotone(
    ctx: Context<MintNft>,
    name: Seq<char>,
    symbol: Seq<char>,
    uri: Seq<char>,
    longer_name: Seq<char>,
    longer_symbol: Seq<char>,
    longer_uri: Seq<char>,
)
    requires
        sizing(ctx, name, symbol, uri) is Sized,
        sizing(ctx, longer_name, longer_symbol, longer_uri) is Sized,
        byte_len(name) <= byte_len(longer_name),
        byte_len(symbol) <= byte_len(longer_symbol),
        byte_len(uri) <= byte_len(longer_uri),
    ensures
        sizing(ctx, name, symbol, uri)->Sized_0.funded_len() <= sizing(
            ctx,
            longer_name,
            longer_symbol,
            longer_uri,
        )->Sized_0.funded_len(),
{
    let a = payload(ctx.accounts, name, symbol, uri);
    let b = payload(ctx.accounts, longer_name, longer_symbol, longer_uri);
    lemma_tlv_size_monotone(a, b);
}

} // verus!

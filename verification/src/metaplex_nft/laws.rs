//! What holds of every mint.

use super::model::{
    edition_seeds, metadata_seeds, preparing, record_data, ActionView, MintingView, ProgressView,
};
use super::{MintNFT, Stage};
use crate::authority::program_address;
use crate::context::Context;
use vstd::prelude::*;

verus! {

/// A run in which every step succeeds issues exactly one unit and leaves a
/// metadata record with the supplied name, symbol and URI and no resale fee,
/// and a master edition record, each at the address derived for the mint.
/// The master edition's supply is fixed at zero: no further edition of the
/// token can be printed.
pub proof fn lemma_completed_run(
    ctx: Context<MintNFT>,
    name: Seq<char>,
    symbol: Seq<char>,
    uri: Seq<char>,
)
    requires
        preparing(ctx, name, symbol, uri) is Ready,
    ensures
        ({
            let m = preparing(ctx, name, symbol, uri)->Ready_0;
            let a = ctx.accounts;
            &&& m.advance(Ok::<(), ()>(())) matches ProgressView::Next(m1, _)
            &&& m1.advance(Ok::<(), ()>(())) matches ProgressView::Next(m2, _)
            &&& m2.advance(Ok::<(), ()>(())) matches ProgressView::Done(r)
            &&& r.issued == 1
            &&& r.mint == a.mint_account
            &&& r.data == record_data(name, symbol, uri)
            &&& r.data.seller_fee_basis_points == 0
            &&& r.edition.max_supply == Some(0u64)
            &&& r.edition.mint == a.mint_account
            &&& m2.action() matches ActionView::CreateMasterEditionV3 { max_supply, .. }
                && max_supply == Some(0u64)
            &&& program_address(metadata_seeds(a), a.token_metadata_program@) matches Some(
                (address, _),
            ) && address == r.metadata_address@
            &&& program_address(edition_seeds(a), a.token_metadata_program@) matches Some(
                (address, _),
            ) && address == r.edition.address@
        }),
{
}

/// The records' addresses are bound to the mint: two runs for the same mint
/// under the same metadata program address the same metadata record and the
/// same master edition record, so the metadata program, which creates a record
/// only where none exists, lets at most one of them pass.
pub proof fn lemma_records_are_bound_to_the_mint(
    first: Context<MintNFT>,
    second: Context<MintNFT>,
    name: Seq<char>,
    symbol: Seq<char>,
    uri: Seq<char>,
    other_name: Seq<char>,
    other_symbol: Seq<char>,
    other_uri: Seq<char>,
)
    requires
        first.accounts.mint_account == second.accounts.mint_account,
        first.accounts.token_metadata_program == second.accounts.token_metadata_program,
        preparing(first, name, symbol, uri) is Ready,
        preparing(second, other_name, other_symbol, other_uri) is Ready,
    ensures
        first.accounts.metadata_account == second.accounts.metadata_account,
        first.accounts.edition_account == second.accounts.edition_account,
{
    assert(metadata_seeds(first.accounts) == metadata_seeds(second.accounts));
    assert(edition_seeds(first.accounts) == edition_seeds(second.accounts));
    assert(first.accounts.metadata_account.bytes =~= second.accounts.metadata_account.bytes);
    assert(first.accounts.edition_account.bytes =~= second.accounts.edition_account.bytes);
}

/// Units are issued at the first step only, and there one unit.
pub proof fn lemma_one_unit_is_issued_once(v: MintingView)
    ensures
        v.action() matches ActionView::MintTo { amount, mint, to, authority } ==> v.stage
            == Stage::Mint && amount == 1 && mint == v.accounts.mint_account && to
            == v.accounts.associated_token_account && authority == v.accounts.signer,
        v.stage == Stage::Mint ==> v.action() is MintTo,
        v.issued() <= 1,
{
}

/// A step that the host reports as failed ends the run at that step with the
/// host's reason: no further action is named and nothing is reported as made.
pub proof fn lemma_rejection_ends_run<E>(v: MintingView, reason: E)
    ensures
        v.advance(Err::<(), E>(reason)) == ProgressView::Failed(v.stage, reason),
{
}

} // verus!

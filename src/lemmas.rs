//! Laws of the workflow, stated over the contracts of its two requests.
use vstd::prelude::*;
use crate::derive::{mint_seeds, program_address_of, treasury_seeds};
use crate::programs::{
    create_post, distributor_id, fresh_id, invoke_post, nft_ct_id, asset_issued, CreateNFT,
    InvokeCreateSingleNft, MIN_AMOUNT,
};
use crate::records::{address_in_use, ErrorCode, Errors, FlowError, Ledger, StepError};

verus! {

/// A fee below the minimum is refused with `InsufficientAmount`, and nothing
/// changes: no balance moves and no record is created.
pub proof fn lemma_insufficient_amount_rejected(
    l: Ledger,
    accounts: InvokeCreateSingleNft,
    id: u64,
    name: Seq<char>,
    symbol: Seq<char>,
    uri: Seq<char>,
    amount: u64,
    r: Result<(), FlowError>,
    l2: Ledger,
)
    requires
        amount < MIN_AMOUNT,
        invoke_post(l, accounts, id, name, symbol, uri, amount, r, l2),
    ensures
        r == Err::<(), FlowError>(FlowError::Distributor(Errors::InsufficientAmount)),
        l2 == l,
{
}

/// A fee at or above the minimum that the payer can pay, for an id whose
/// records are all free, issues the asset: its single unit sits in the
/// payer's holding account, no other asset carries that id, and its metadata
/// and edition records are as `asset_issued` describes (the given texts, 500
/// basis points, one verified creator with the whole share, a supply cap of
/// one).
pub proof fn lemma_fresh_id_issued(
    l: Ledger,
    accounts: InvokeCreateSingleNft,
    id: u64,
    name: Seq<char>,
    symbol: Seq<char>,
    uri: Seq<char>,
    amount: u64,
    r: Result<(), FlowError>,
    l2: Ledger,
)
    requires
        l.wf(),
        amount >= MIN_AMOUNT,
        amount <= l.payer_lamports,
        l.treasury_balance() + amount <= u64::MAX,
        l.treasury is Some || program_address_of(treasury_seeds(), distributor_id()) is Some,
        fresh_id(l.assets@, accounts.metadata_program@, id),
        invoke_post(l, accounts, id, name, symbol, uri, amount, r, l2),
    ensures
        r is Ok,
        l2.payer_lamports == l.payer_lamports - amount,
        l2.treasury_balance() == l.treasury_balance() + amount,
        l2.assets@.len() == l.assets@.len() + 1,
        l2.assets@.last().id == id,
        l2.assets@.last().holder_amount == 1,
        forall|i: int| 0 <= i < l2.assets@.len() - 1 ==> l2.assets@[i].id != id,
        asset_issued(
            l2.assets@.last(),
            id,
            name,
            symbol,
            uri,
            accounts.payer,
            accounts.metadata_program,
        ),
{
    let n = l2.assets@.len() - 1;
    assert forall|i: int| 0 <= i < n implies l2.assets@[i].id != id by {
        assert(l2.assets@[n].id == id);
    }
}

/// A minting request whose executing instruction is not the payment gate's
/// fails with `Unauthorized` and creates nothing.
pub proof fn lemma_direct_call_unauthorized(
    l: Ledger,
    ctx: CreateNFT,
    id: u64,
    name: Seq<char>,
    symbol: Seq<char>,
    uri: Seq<char>,
    r: Result<(), FlowError>,
    l2: Ledger,
)
    requires
        ctx.current_program@ != distributor_id(),
        create_post(l, ctx, id, name, symbol, uri, r, l2),
    ensures
        r == Err::<(), FlowError>(FlowError::NftCt(ErrorCode::Unauthorized)),
        l2 == l,
{
}

/// Once a payment request for `id` has succeeded, any later request for the
/// same id fails whatever its fee and leaves the ledger unchanged, so no
/// second unit is issued; when the fee is acceptable and payable the failure
/// is the mint address already being in use.
pub proof fn lemma_repeated_id_rejected(
    l0: Ledger,
    accounts1: InvokeCreateSingleNft,
    id: u64,
    name1: Seq<char>,
    symbol1: Seq<char>,
    uri1: Seq<char>,
    amount1: u64,
    r1: Result<(), FlowError>,
    l1: Ledger,
    accounts2: InvokeCreateSingleNft,
    name2: Seq<char>,
    symbol2: Seq<char>,
    uri2: Seq<char>,
    amount2: u64,
    r2: Result<(), FlowError>,
    l2: Ledger,
)
    requires
        invoke_post(l0, accounts1, id, name1, symbol1, uri1, amount1, r1, l1),
        r1 is Ok,
        invoke_post(l1, accounts2, id, name2, symbol2, uri2, amount2, r2, l2),
    ensures
        r2 is Err,
        l2 == l1,
        amount2 >= MIN_AMOUNT && amount2 <= l1.payer_lamports && l1.treasury_balance() + amount2
            <= u64::MAX ==> r2 == Err::<(), FlowError>(FlowError::Step(StepError::MintAlreadyInUse)),
{
    let n = l1.assets@.len() - 1;
    let a = l1.assets@[n];
    assert(a == l1.assets@.last());
    assert(program_address_of(mint_seeds(id), nft_ct_id()) == Some((a.mint@, a.mint_bump)));
    assert(address_in_use(l1.assets@, a.mint@));
}

/// Issued records are never changed by a later payment request: every asset
/// that was on the ledger before is still there, at its place, as it was.
pub proof fn lemma_issued_records_unchanged(
    l: Ledger,
    accounts: InvokeCreateSingleNft,
    id: u64,
    name: Seq<char>,
    symbol: Seq<char>,
    uri: Seq<char>,
    amount: u64,
    r: Result<(), FlowError>,
    l2: Ledger,
)
    requires
        invoke_post(l, accounts, id, name, symbol, uri, amount, r, l2),
    ensures
        l.assets@.len() <= l2.assets@.len(),
        forall|i: int| 0 <= i < l.assets@.len() ==> l2.assets@[i] == l.assets@[i],
{
    if r is Ok {
        assert forall|i: int| 0 <= i < l.assets@.len() implies l2.assets@[i] == l.assets@[i] by {
            assert(l2.assets@.drop_last()[i] == l2.assets@[i]);
        }
    }
}

} // verus!

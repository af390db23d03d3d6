//! The payment gate and the minting routine it calls.
use vstd::prelude::*;
use crate::keys::Pubkey;
use crate::keys::cmp_pubkeys;
use crate::derive::{
    edition_seeds, find_edition_address, find_metadata_address, find_mint_address,
    find_treasury_address, metadata_seeds, mint_seeds, program_address_of, treasury_seeds,
};
use crate::records::{
    address_in_use, find_address_in_use, Asset, Creator, Distributor, EditionRecord, ErrorCode,
    Errors, FlowError, Ledger, MetadataRecord, StepError,
};

verus! {

/// The smallest fee, in lamports, that the payment gate accepts.
pub const MIN_AMOUNT: u64 = 10000000;

/// The royalty on secondary sales, in basis points (5%).
pub const ROYALTY_BASIS_POINTS: u16 = 500;

/// The payment gate's program id, the only caller the minting routine accepts.
pub open spec fn distributor_id() -> Seq<u8> {
    seq![
        129u8, 17u8, 165u8, 243u8, 251u8, 252u8, 86u8, 1u8, 109u8, 156u8, 232u8, 121u8, 233u8,
        68u8, 239u8, 219u8, 120u8, 82u8, 59u8, 144u8, 213u8, 142u8, 47u8, 193u8, 253u8, 24u8,
        162u8, 210u8, 253u8, 46u8, 244u8, 228u8,
    ]
}

/// The minting routine's program id, under which asset mints are derived.
pub open spec fn nft_ct_id() -> Seq<u8> {
    seq![
        161u8, 186u8, 189u8, 183u8, 88u8, 239u8, 168u8, 47u8, 167u8, 140u8, 78u8, 111u8, 253u8,
        170u8, 64u8, 223u8, 155u8, 220u8, 211u8, 135u8, 36u8, 86u8, 83u8, 173u8, 138u8, 73u8,
        156u8, 81u8, 77u8, 168u8, 43u8, 89u8,
    ]
}

/// The payment gate's program id.
pub fn distributor_program_id() -> (r: Pubkey)
    ensures
        r@ == distributor_id(),
{
    let r = Pubkey {
        bytes: [
            129, 17, 165, 243, 251, 252, 86, 1, 109, 156, 232, 121, 233, 68, 239, 219, 120, 82,
            59, 144, 213, 142, 47, 193, 253, 24, 162, 210, 253, 46, 244, 228,
        ],
    };
    assert(r@ =~= distributor_id());
    r
}

/// The minting routine's program id.
pub fn nft_ct_program_id() -> (r: Pubkey)
    ensures
        r@ == nft_ct_id(),
{
    let r = Pubkey {
        bytes: [
            161, 186, 189, 183, 88, 239, 168, 47, 167, 140, 78, 111, 253, 170, 64, 223, 155, 220,
            211, 135, 36, 86, 83, 173, 138, 73, 156, 81, 77, 168, 43, 89,
        ],
    };
    assert(r@ =~= nft_ct_id());
    r
}

/// Decides whether a fee may be taken: one below the minimum is refused.
pub fn check_amount(amount: u64) -> (r: Result<(), Errors>)
    ensures
        amount < MIN_AMOUNT ==> r == Err::<(), Errors>(Errors::InsufficientAmount),
        amount >= MIN_AMOUNT ==> r is Ok,
{
    if amount < MIN_AMOUNT {
        Err(Errors::InsufficientAmount)
    } else {
        Ok(())
    }
}

/// Decides whether a minting request may go on: only when introspection
/// reports the distributor's program as the one executing.
pub fn check_caller(current_program: &Pubkey) -> (r: Result<(), ErrorCode>)
    ensures
        current_program@ != distributor_id() ==> r == Err::<(), ErrorCode>(ErrorCode::Unauthorized),
        current_program@ == distributor_id() ==> r is Ok,
{
    let allowed = distributor_program_id();
    if cmp_pubkeys(current_program, &allowed) {
        Ok(())
    } else {
        Err(ErrorCode::Unauthorized)
    }
}

/// The accounts of a minting request.
#[derive(Clone, Copy, Debug, PartialEq, Eq)]
pub struct CreateNFT {
    /// Pays for the new accounts and owns the holding account.
    pub payer: Pubkey,
    /// The program that owns metadata and edition records.
    pub metadata_program: Pubkey,
    /// The program id of the instruction at relative offset 0 from the one
    /// executing, as the instruction introspection reports it.
    pub current_program: Pubkey,
}

/// The accounts of a payment request.
#[derive(Clone, Copy, Debug, PartialEq, Eq)]
pub struct InvokeCreateSingleNft {
    /// Pays the fee and the new accounts, and receives the asset.
    pub payer: Pubkey,
    /// The program that owns metadata and edition records.
    pub metadata_program: Pubkey,
}

impl InvokeCreateSingleNft {
    /// Builds the accounts of the nested minting call: the distributor's own
    /// instruction is the one executing.
    pub fn create_nft_ctx(&self) -> (r: CreateNFT)
        ensures
            r.payer == self.payer,
            r.metadata_program == self.metadata_program,
            r.current_program@ == distributor_id(),
    {
        CreateNFT {
            payer: self.payer,
            metadata_program: self.metadata_program,
            current_program: distributor_program_id(),
        }
    }
}

/// The mint, metadata and edition addresses of asset `id` can all be derived,
/// and no issued record lives at any of them.
pub open spec fn fresh_id(assets: Seq<Asset>, metadata_program: Seq<u8>, id: u64) -> bool {
    &&& program_address_of(mint_seeds(id), nft_ct_id()) matches Some((mint, _))
    &&& !address_in_use(assets, mint)
    &&& program_address_of(metadata_seeds(metadata_program, mint), metadata_program) matches Some(
        (md, _),
    ) && !address_in_use(assets, md)
    &&& program_address_of(edition_seeds(metadata_program, mint), metadata_program) matches Some(
        (ed, _),
    ) && !address_in_use(assets, ed)
}

/// What a minting request returns, given the issued assets, the program id
/// that introspection reports for the executing instruction, the metadata
/// program, and the asset id.
pub open spec fn create_outcome(
    assets: Seq<Asset>,
    current_program: Seq<u8>,
    metadata_program: Seq<u8>,
    id: u64,
) -> Result<(), FlowError> {
    if current_program != distributor_id() {
        Err(FlowError::NftCt(ErrorCode::Unauthorized))
    } else {
        match program_address_of(mint_seeds(id), nft_ct_id()) {
            None => Err(FlowError::Step(StepError::NoViableBump)),
            Some((mint, _)) => if address_in_use(assets, mint) {
                Err(FlowError::Step(StepError::MintAlreadyInUse))
            } else {
                match program_address_of(metadata_seeds(metadata_program, mint), metadata_program) {
                    None => Err(FlowError::Step(StepError::NoViableBump)),
                    Some((md, _)) => if address_in_use(assets, md) {
                        Err(FlowError::Step(StepError::MetadataAlreadyInUse))
                    } else {
                        match program_address_of(
                            edition_seeds(metadata_program, mint),
                            metadata_program,
                        ) {
                            None => Err(FlowError::Step(StepError::NoViableBump)),
                            Some((ed, _)) => if address_in_use(assets, ed) {
                                Err(FlowError::Step(StepError::EditionAlreadyInUse))
                            } else {
                                Ok(())
                            },
                        }
                    },
                }
            },
        }
    }
}

/// `a` is the asset that a successful minting request for `id` issues: one
/// indivisible unit held by `holder`, the mint's derived address as its
/// authority, metadata with the given texts, a 5% royalty and that authority
/// as its single verified creator with the whole share, and a supply cap of one.
pub open spec fn asset_issued(
    a: Asset,
    id: u64,
    name: Seq<char>,
    symbol: Seq<char>,
    uri: Seq<char>,
    holder: Pubkey,
    metadata_program: Pubkey,
) -> bool {
    &&& a.id == id
    &&& program_address_of(mint_seeds(id), nft_ct_id()) == Some((a.mint@, a.mint_bump))
    &&& a.authority == a.mint
    &&& a.decimals == 0
    &&& a.holder == holder
    &&& a.holder_amount == 1
    &&& program_address_of(metadata_seeds(metadata_program@, a.mint@), metadata_program@) matches Some(
        (md, _),
    ) && md == a.metadata.address@
    &&& a.metadata.name@ == name
    &&& a.metadata.symbol@ == symbol
    &&& a.metadata.uri@ == uri
    &&& a.metadata.seller_fee_basis_points == ROYALTY_BASIS_POINTS
    &&& a.metadata.creators@ == seq![(Creator { address: a.mint, verified: true, share: 100 })]
    &&& program_address_of(edition_seeds(metadata_program@, a.mint@), metadata_program@) matches Some(
        (ed, _),
    ) && ed == a.edition.address@
    &&& a.edition.max_supply == Some(1u64)
}

impl Ledger {
    /// Each asset's mint lies at the address derived from its id, ids are
    /// never issued twice, and the treasury lies at its derived address.
    pub open spec fn wf(&self) -> bool {
        &&& forall|i: int|
            0 <= i < self.assets@.len() ==> (program_address_of(
                mint_seeds(#[trigger] self.assets@[i].id),
                nft_ct_id(),
            ) matches Some((m, _)) && m == self.assets@[i].mint@)
        &&& forall|i: int, j: int|
            0 <= i < self.assets@.len() && 0 <= j < self.assets@.len() && i != j
                ==> self.assets@[i].id != self.assets@[j].id
        &&& self.treasury matches Some(t) ==> program_address_of(treasury_seeds(), distributor_id())
            == Some((t.address@, t.bump))
    }
}

/// The ledger `l2` and result `r` are what a minting request on `l` may
/// leave and return.
pub open spec fn create_post(
    l: Ledger,
    ctx: CreateNFT,
    id: u64,
    name: Seq<char>,
    symbol: Seq<char>,
    uri: Seq<char>,
    r: Result<(), FlowError>,
    l2: Ledger,
) -> bool {
    &&& l2.wf()
    &&& r == create_outcome(l.assets@, ctx.current_program@, ctx.metadata_program@, id)
    &&& r is Err ==> l2 == l
    &&& r is Ok ==> {
        &&& l2.payer_lamports == l.payer_lamports
        &&& l2.treasury == l.treasury
        &&& l2.assets@.len() == l.assets@.len() + 1
        &&& l2.assets@.drop_last() == l.assets@
        &&& asset_issued(l2.assets@.last(), id, name, symbol, uri, ctx.payer, ctx.metadata_program)
    }
}

/// Issues asset `id` with its metadata and edition records, when the
/// executing instruction is the payment gate's. On any failure the ledger is
/// left as it was.
pub fn create_single_nft(
    ledger: &mut Ledger,
    ctx: &CreateNFT,
    id: u64,
    name: String,
    symbol: String,
    uri: String,
) -> (r: Result<(), FlowError>)
    requires
        old(ledger).wf(),
    ensures
        create_post(*old(ledger), *ctx, id, name@, symbol@, uri@, r, *final(ledger)),
{
    if let Err(e) = check_caller(&ctx.current_program) {
        return Err(FlowError::NftCt(e));
    }
    let program = nft_ct_program_id();
    let (mint, mint_bump) = match find_mint_address(id, &program) {
        Some(d) => d,
        None => {
            return Err(FlowError::Step(StepError::NoViableBump));
        },
    };
    if find_address_in_use(&ledger.assets, &mint) {
        return Err(FlowError::Step(StepError::MintAlreadyInUse));
    }
    let (metadata_address, _) = match find_metadata_address(&ctx.metadata_program, &mint) {
        Some(d) => d,
        None => {
            return Err(FlowError::Step(StepError::NoViableBump));
        },
    };
    if find_address_in_use(&ledger.assets, &metadata_address) {
        return Err(FlowError::Step(StepError::MetadataAlreadyInUse));
    }
    let (edition_address, _) = match find_edition_address(&ctx.metadata_program, &mint) {
        Some(d) => d,
        None => {
            return Err(FlowError::Step(StepError::NoViableBump));
        },
    };
    if find_address_in_use(&ledger.assets, &edition_address) {
        return Err(FlowError::Step(StepError::EditionAlreadyInUse));
    }
    let metadata = MetadataRecord {
        address: metadata_address,
        name,
        symbol,
        uri,
        seller_fee_basis_points: ROYALTY_BASIS_POINTS,
        creators: vec![Creator { address: mint, verified: true, share: 100 }],
    };
    let asset = Asset {
        id,
        mint,
        mint_bump,
        authority: mint,
        decimals: 0,
        holder: ctx.payer,
        holder_amount: 1,
        metadata,
        edition: EditionRecord { address: edition_address, max_supply: Some(1) },
    };
    let ghost old_assets = ledger.assets@;
    proof {
        assert forall|i: int| 0 <= i < old_assets.len() implies old_assets[i].id != id by {
            if old_assets[i].id == id {
                assert(old_assets[i].mint@ == mint@);
            }
        }
    }
    ledger.assets.push(asset);
    assert(ledger.assets@.drop_last() =~= old_assets);
    assert(ledger.assets@.last().metadata.creators@ =~= seq![
        (Creator { address: mint, verified: true, share: 100 }),
    ]);
    Ok(())
}

/// What a payment request returns, given the ledger before it.
pub open spec fn invoke_outcome(
    l: Ledger,
    accounts: InvokeCreateSingleNft,
    id: u64,
    amount: u64,
) -> Result<(), FlowError> {
    if amount < MIN_AMOUNT {
        Err(FlowError::Distributor(Errors::InsufficientAmount))
    } else if l.treasury is None && program_address_of(treasury_seeds(), distributor_id()) is None {
        Err(FlowError::Step(StepError::NoViableBump))
    } else if amount > l.payer_lamports || l.treasury_balance() + amount > u64::MAX {
        Err(FlowError::Distributor(Errors::TransferFailed))
    } else {
        create_outcome(l.assets@, distributor_id(), accounts.metadata_program@, id)
    }
}

/// The ledger `l2` and result `r` are what a payment request on `l` may
/// leave and return.
pub open spec fn invoke_post(
    l: Ledger,
    accounts: InvokeCreateSingleNft,
    id: u64,
    name: Seq<char>,
    symbol: Seq<char>,
    uri: Seq<char>,
    amount: u64,
    r: Result<(), FlowError>,
    l2: Ledger,
) -> bool {
    &&& l2.wf()
    &&& r == invoke_outcome(l, accounts, id, amount)
    &&& r is Err ==> l2 == l
    &&& r is Ok ==> {
        &&& l2.payer_lamports == l.payer_lamports - amount
        &&& l2.treasury is Some
        &&& l2.treasury_balance() == l.treasury_balance() + amount
        &&& l2.assets@.len() == l.assets@.len() + 1
        &&& l2.assets@.drop_last() == l.assets@
        &&& asset_issued(
            l2.assets@.last(),
            id,
            name,
            symbol,
            uri,
            accounts.payer,
            accounts.metadata_program,
        )
    }
}

/// Takes a fee of `amount` lamports from the payer into the treasury,
/// creating the treasury on first use, and then asks the minting routine,
/// under the distributor's own identity, to issue asset `id`. The minting routine's
/// outcome is returned unchanged; on any failure the fee is given back and
/// the ledger is left as it was.
pub fn invoke_create_nft(
    ledger: &mut Ledger,
    accounts: &InvokeCreateSingleNft,
    id: u64,
    name: String,
    symbol: String,
    uri: String,
    amount: u64,
) -> (r: Result<(), FlowError>)
    requires
        old(ledger).wf(),
    ensures
        invoke_post(*old(ledger), *accounts, id, name@, symbol@, uri@, amount, r, *final(ledger)),
{
    if let Err(e) = check_amount(amount) {
        return Err(FlowError::Distributor(e));
    }
    let saved_payer = ledger.payer_lamports;
    let saved_treasury = ledger.treasury;
    let treasury = match ledger.treasury {
        Some(t) => t,
        None => match find_treasury_address(&distributor_program_id()) {
            Some((address, bump)) => Distributor { address, bump, lamports: 0 },
            None => {
                return Err(FlowError::Step(StepError::NoViableBump));
            },
        },
    };
    if amount > ledger.payer_lamports || treasury.lamports > u64::MAX - amount {
        return Err(FlowError::Distributor(Errors::TransferFailed));
    }
    ledger.payer_lamports = ledger.payer_lamports - amount;
    ledger.treasury = Some(
        Distributor {
            address: treasury.address,
            bump: treasury.bump,
            lamports: treasury.lamports + amount,
        },
    );
    let ctx = accounts.create_nft_ctx();
    let r = create_single_nft(ledger, &ctx, id, name, symbol, uri);
    if r.is_err() {
        ledger.payer_lamports = saved_payer;
        ledger.treasury = saved_treasury;
    }
    r
}

} // verus!

//! The records that the workflow creates, the errors it reports, and the
//! ledger that holds them.
use vstd::prelude::*;
use crate::keys::Pubkey;
use crate::keys::cmp_pubkeys;

verus! {

/// Errors of the payment gate.
#[derive(Clone, Copy, Debug, PartialEq, Eq, Structural)]
pub enum Errors {
    /// The fee could not be moved to the treasury.
    TransferFailed,
    /// The fee is below the minimum.
    InsufficientAmount,
}

/// Errors of the minting routine.
#[derive(Clone, Copy, Debug, PartialEq, Eq, Structural)]
pub enum ErrorCode {
    /// The current instruction was not issued by the payment gate.
    Unauthorized,
}

/// Failures of the steps that create accounts.
#[derive(Clone, Copy, Debug, PartialEq, Eq, Structural)]
pub enum StepError {
    /// The asset's mint address already holds an account: the id was used.
    MintAlreadyInUse,
    /// The metadata record's address already holds an account.
    MetadataAlreadyInUse,
    /// The edition record's address already holds an account.
    EditionAlreadyInUse,
    /// No bump seed gives an address off the curve for these seeds.
    NoViableBump,
}

/// The one terminal failure of a request.
#[derive(Clone, Copy, Debug, PartialEq, Eq, Structural)]
pub enum FlowError {
    Distributor(Errors),
    NftCt(ErrorCode),
    Step(StepError),
}

/// The treasury singleton: its derived address, bump seed and balance.
#[derive(Clone, Copy, Debug, PartialEq, Eq)]
pub struct Distributor {
    pub address: Pubkey,
    pub bump: u8,
    pub lamports: u64,
}

/// A creator entry of a metadata record.
#[derive(Clone, Copy, Debug, PartialEq, Eq)]
pub struct Creator {
    pub address: Pubkey,
    pub verified: bool,
    pub share: u8,
}

/// Descriptive metadata of an asset; it has no collection and no uses.
#[derive(Clone, Debug)]
pub struct MetadataRecord {
    pub address: Pubkey,
    pub name: String,
    pub symbol: String,
    pub uri: String,
    pub seller_fee_basis_points: u16,
    pub creators: Vec<Creator>,
}

/// The supply cap of an asset.
#[derive(Clone, Copy, Debug, PartialEq, Eq)]
pub struct EditionRecord {
    pub address: Pubkey,
    pub max_supply: Option<u64>,
}

/// One issued asset: its mint, the holding account's owner and balance, and
/// its two records.
#[derive(Clone, Debug)]
pub struct Asset {
    pub id: u64,
    pub mint: Pubkey,
    pub mint_bump: u8,
    pub authority: Pubkey,
    pub decimals: u8,
    pub holder: Pubkey,
    pub holder_amount: u64,
    pub metadata: MetadataRecord,
    pub edition: EditionRecord,
}

/// The accounts that the workflow reads and writes: the payer's balance, the
/// treasury once created, and the issued assets in order of issue.
#[derive(Clone, Debug)]
pub struct Ledger {
    pub payer_lamports: u64,
    pub treasury: Option<Distributor>,
    pub assets: Vec<Asset>,
}

/// Some record of `assets` lives at address `k`.
pub open spec fn address_in_use(assets: Seq<Asset>, k: Seq<u8>) -> bool {
    exists|i: int|
        0 <= i < assets.len() && (assets[i].mint@ == k || assets[i].metadata.address@ == k
            || assets[i].edition.address@ == k)
}

/// Tells whether some record of `assets` lives at address `k`.
pub fn find_address_in_use(assets: &Vec<Asset>, k: &Pubkey) -> (r: bool)
    ensures
        r == address_in_use(assets@, k@),
{
    let mut i: usize = 0;
    while i < assets.len()
        invariant
            i <= assets@.len(),
            forall|j: int|
                0 <= j < i ==> !(assets@[j].mint@ == k@ || assets@[j].metadata.address@ == k@
                    || assets@[j].edition.address@ == k@),
        decreases assets@.len() - i,
    {
        let a = &assets[i];
        if cmp_pubkeys(&a.mint, k) || cmp_pubkeys(&a.metadata.address, k) || cmp_pubkeys(
            &a.edition.address,
            k,
        ) {
            return true;
        }
        i = i + 1;
    }
    false
}

impl Ledger {
    /// A ledger with a payer holding `payer_lamports`, no treasury and no assets.
    pub fn new(payer_lamports: u64) -> (r: Ledger)
        ensures
            r.payer_lamports == payer_lamports,
            r.treasury is None,
            r.assets@.len() == 0,
            r.wf(),
    {
        Ledger { payer_lamports, treasury: None, assets: Vec::new() }
    }

    /// The treasury's balance; zero before it exists.
    pub open spec fn treasury_balance(&self) -> u64 {
        match self.treasury {
            Some(t) => t.lamports,
            None => 0,
        }
    }
}

} // verus!

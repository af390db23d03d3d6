use std::str::FromStr;

use mpl_token_metadata::accounts::{MasterEdition, Metadata};
use nft_distributor::derive::{
    find_edition_address, find_metadata_address, find_mint_address, find_treasury_address,
    u64_le_bytes,
};
use nft_distributor::keys::{cmp_pubkeys, Pubkey};
use nft_distributor::programs::{
    check_amount, check_caller, create_single_nft, distributor_program_id, invoke_create_nft, nft_ct_program_id, CreateNFT,
    InvokeCreateSingleNft, MIN_AMOUNT, ROYALTY_BASIS_POINTS,
};
use nft_distributor::records::{ErrorCode, Errors, FlowError, Ledger, StepError};
use solana_program::pubkey::Pubkey as SolanaPubkey;

const PAYER: &str = "4Nd1mBQtrMJVYVfKf2PJy9NZUZdTAsp7D4xWLs4gDB4T";

fn key(s: &str) -> Pubkey {
    Pubkey { bytes: SolanaPubkey::from_str(s).unwrap().to_bytes() }
}

fn solana(k: &Pubkey) -> SolanaPubkey {
    SolanaPubkey::new_from_array(k.bytes)
}

fn metadata_program() -> Pubkey {
    Pubkey { bytes: mpl_token_metadata::ID.to_bytes() }
}

fn accounts() -> InvokeCreateSingleNft {
    InvokeCreateSingleNft { payer: key(PAYER), metadata_program: metadata_program() }
}

fn mint(ledger: &mut Ledger, id: u64, amount: u64) -> Result<(), FlowError> {
    invoke_create_nft(
        ledger,
        &accounts(),
        id,
        "Art #1".to_string(),
        "ART".to_string(),
        "ipfs://abc".to_string(),
        amount,
    )
}

#[test]
fn program_ids_match_declared_ids() {
    assert_eq!(
        solana(&distributor_program_id()).to_string(),
        "9gqCftnKaG2pYswKbM1GfaMU57fptTw893V3bkAXdkJX"
    );
    assert_eq!(
        solana(&nft_ct_program_id()).to_string(),
        "BtKo4Ljr6FDuw6xEzbcji2FwKPaQ2Try5qmyBmosL5kt"
    );
}

#[test]
fn compares_keys_byte_for_byte() {
    let a = key(PAYER);
    let mut b = a;
    assert!(cmp_pubkeys(&a, &b));
    b.bytes[31] ^= 1;
    assert!(!cmp_pubkeys(&a, &b));
    b = a;
    b.bytes[0] ^= 0x80;
    assert!(!cmp_pubkeys(&a, &b));
}

#[test]
fn encodes_id_little_endian() {
    assert_eq!(u64_le_bytes(1), vec![1, 0, 0, 0, 0, 0, 0, 0]);
    assert_eq!(u64_le_bytes(0x0102030405060708), vec![8, 7, 6, 5, 4, 3, 2, 1]);
    assert_eq!(u64_le_bytes(u64::MAX), vec![255; 8]);
}

#[test]
fn mint_address_is_the_platform_derivation() {
    let (m, bump) = find_mint_address(42, &nft_ct_program_id()).unwrap();
    let (expected, expected_bump) = SolanaPubkey::find_program_address(
        &[b"mint", &42u64.to_le_bytes()],
        &solana(&nft_ct_program_id()),
    );
    assert_eq!(solana(&m), expected);
    assert_eq!(bump, expected_bump);
}

#[test]
fn mint_derivation_is_deterministic_and_separates_ids() {
    let first = find_mint_address(42, &nft_ct_program_id()).unwrap();
    let second = find_mint_address(42, &nft_ct_program_id()).unwrap();
    assert_eq!(first, second);
    let other = find_mint_address(43, &nft_ct_program_id()).unwrap();
    assert_ne!(first.0, other.0);
}

#[test]
fn metadata_and_edition_addresses_follow_the_metadata_program() {
    let (m, _) = find_mint_address(7, &nft_ct_program_id()).unwrap();
    let (md, md_bump) = find_metadata_address(&metadata_program(), &m).unwrap();
    let (ed, ed_bump) = find_edition_address(&metadata_program(), &m).unwrap();
    assert_eq!((solana(&md), md_bump), Metadata::find_pda(&solana(&m)));
    assert_eq!((solana(&ed), ed_bump), MasterEdition::find_pda(&solana(&m)));
    assert_ne!(md, ed);
}

#[test]
fn treasury_address_is_the_platform_derivation() {
    let (t, bump) = find_treasury_address(&distributor_program_id()).unwrap();
    let expected =
        SolanaPubkey::find_program_address(&[b"distributor"], &solana(&distributor_program_id()));
    assert_eq!((solana(&t), bump), expected);
}

#[test]
fn fee_below_minimum_is_refused_without_effect() {
    for amount in [0u64, 1, 5_000_000, MIN_AMOUNT - 1] {
        let mut ledger = Ledger::new(1_000_000_000);
        let r = mint(&mut ledger, 1, amount);
        assert_eq!(r, Err(FlowError::Distributor(Errors::InsufficientAmount)));
        assert_eq!(ledger.payer_lamports, 1_000_000_000);
        assert!(ledger.treasury.is_none());
        assert!(ledger.assets.is_empty());
    }
}

#[test]
fn unpayable_fee_fails_the_transfer() {
    let mut ledger = Ledger::new(MIN_AMOUNT - 1);
    let r = mint(&mut ledger, 1, MIN_AMOUNT);
    assert_eq!(r, Err(FlowError::Distributor(Errors::TransferFailed)));
    assert_eq!(ledger.payer_lamports, MIN_AMOUNT - 1);
    assert!(ledger.treasury.is_none());
    assert!(ledger.assets.is_empty());
}

#[test]
fn end_to_end_first_mint_succeeds() {
    let mut ledger = Ledger::new(100_000_000);
    let r = mint(&mut ledger, 1, 10_000_000);
    assert_eq!(r, Ok(()));
    assert_eq!(ledger.payer_lamports, 90_000_000);
    let treasury = ledger.treasury.unwrap();
    assert_eq!(treasury.lamports, 10_000_000);
    assert_eq!(treasury.address, find_treasury_address(&distributor_program_id()).unwrap().0);
    assert_eq!(ledger.assets.len(), 1);
    let a = &ledger.assets[0];
    let (m, bump) = find_mint_address(1, &nft_ct_program_id()).unwrap();
    assert_eq!(a.id, 1);
    assert_eq!(a.mint, m);
    assert_eq!(a.mint_bump, bump);
    assert_eq!(a.authority, m);
    assert_eq!(a.decimals, 0);
    assert_eq!(a.holder, key(PAYER));
    assert_eq!(a.holder_amount, 1);
    assert_eq!(a.metadata.name, "Art #1");
    assert_eq!(a.metadata.symbol, "ART");
    assert_eq!(a.metadata.uri, "ipfs://abc");
    assert_eq!(a.metadata.seller_fee_basis_points, ROYALTY_BASIS_POINTS);
    assert_eq!(a.metadata.seller_fee_basis_points, 500);
    assert_eq!(a.metadata.creators.len(), 1);
    assert_eq!(a.metadata.creators[0].address, m);
    assert!(a.metadata.creators[0].verified);
    assert_eq!(a.metadata.creators[0].share, 100);
    assert_eq!(a.metadata.address, find_metadata_address(&metadata_program(), &m).unwrap().0);
    assert_eq!(a.edition.address, find_edition_address(&metadata_program(), &m).unwrap().0);
    assert_eq!(a.edition.max_supply, Some(1));
}

#[test]
fn end_to_end_repeated_id_is_refused() {
    let mut ledger = Ledger::new(100_000_000);
    assert_eq!(mint(&mut ledger, 1, 10_000_000), Ok(()));
    let r = mint(&mut ledger, 1, 50_000_000);
    assert_eq!(r, Err(FlowError::Step(StepError::MintAlreadyInUse)));
    assert_eq!(ledger.assets.len(), 1);
    assert_eq!(ledger.assets[0].holder_amount, 1);
    assert_eq!(ledger.payer_lamports, 90_000_000);
    assert_eq!(ledger.treasury.unwrap().lamports, 10_000_000);
}

#[test]
fn repeated_id_with_low_fee_is_refused() {
    let mut ledger = Ledger::new(100_000_000);
    assert_eq!(mint(&mut ledger, 5, MIN_AMOUNT), Ok(()));
    assert_eq!(
        mint(&mut ledger, 5, 1),
        Err(FlowError::Distributor(Errors::InsufficientAmount))
    );
    assert_eq!(ledger.assets.len(), 1);
}

#[test]
fn distinct_ids_share_one_treasury() {
    let mut ledger = Ledger::new(100_000_000);
    assert_eq!(mint(&mut ledger, 1, 10_000_000), Ok(()));
    let first_mint = ledger.assets[0].mint;
    let first_metadata = ledger.assets[0].metadata.address;
    assert_eq!(mint(&mut ledger, 2, 20_000_000), Ok(()));
    assert_eq!(ledger.assets.len(), 2);
    assert_eq!(ledger.assets[0].id, 1);
    assert_eq!(ledger.assets[0].mint, first_mint);
    assert_eq!(ledger.assets[0].metadata.address, first_metadata);
    assert_eq!(ledger.assets[0].holder_amount, 1);
    assert_ne!(ledger.assets[0].mint, ledger.assets[1].mint);
    assert_eq!(ledger.treasury.unwrap().lamports, 30_000_000);
    assert_eq!(ledger.payer_lamports, 70_000_000);
}

#[test]
fn treasury_overflow_fails_the_transfer() {
    let mut ledger = Ledger::new(u64::MAX);
    assert_eq!(mint(&mut ledger, 1, u64::MAX - 5), Ok(()));
    ledger.payer_lamports = u64::MAX;
    let r = mint(&mut ledger, 2, MIN_AMOUNT);
    assert_eq!(r, Err(FlowError::Distributor(Errors::TransferFailed)));
    assert_eq!(ledger.assets.len(), 1);
}

#[test]
fn direct_minting_call_is_unauthorized() {
    let mut ledger = Ledger::new(100_000_000);
    let ctx = CreateNFT {
        payer: key(PAYER),
        metadata_program: metadata_program(),
        current_program: nft_ct_program_id(),
    };
    let r = create_single_nft(
        &mut ledger,
        &ctx,
        1,
        "Art #1".to_string(),
        "ART".to_string(),
        "ipfs://abc".to_string(),
    );
    assert_eq!(r, Err(FlowError::NftCt(ErrorCode::Unauthorized)));
    assert!(ledger.assets.is_empty());
    assert_eq!(ledger.payer_lamports, 100_000_000);
}

#[test]
fn nested_minting_call_is_accepted() {
    let mut ledger = Ledger::new(0);
    let ctx = accounts().create_nft_ctx();
    assert_eq!(ctx.current_program, distributor_program_id());
    assert_eq!(ctx.payer, key(PAYER));
    let r = create_single_nft(
        &mut ledger,
        &ctx,
        9,
        "N".to_string(),
        "S".to_string(),
        "u".to_string(),
    );
    assert_eq!(r, Ok(()));
    assert_eq!(ledger.assets.len(), 1);
    assert_eq!(ledger.assets[0].id, 9);
}

#[test]
fn taken_metadata_address_fails_the_second_step() {
    let mut ledger = Ledger::new(100_000_000);
    assert_eq!(mint(&mut ledger, 1, MIN_AMOUNT), Ok(()));
    let (m2, _) = find_mint_address(2, &nft_ct_program_id()).unwrap();
    let (md2, _) = find_metadata_address(&metadata_program(), &m2).unwrap();
    ledger.assets[0].edition.address = md2;
    let r = mint(&mut ledger, 2, MIN_AMOUNT);
    assert_eq!(r, Err(FlowError::Step(StepError::MetadataAlreadyInUse)));
    assert_eq!(ledger.assets.len(), 1);
    assert_eq!(ledger.payer_lamports, 100_000_000 - MIN_AMOUNT);
}

#[test]
fn taken_edition_address_fails_the_third_step() {
    let mut ledger = Ledger::new(100_000_000);
    assert_eq!(mint(&mut ledger, 1, MIN_AMOUNT), Ok(()));
    let (m2, _) = find_mint_address(2, &nft_ct_program_id()).unwrap();
    let (ed2, _) = find_edition_address(&metadata_program(), &m2).unwrap();
    ledger.assets[0].metadata.address = ed2;
    let r = mint(&mut ledger, 2, MIN_AMOUNT);
    assert_eq!(r, Err(FlowError::Step(StepError::EditionAlreadyInUse)));
    assert_eq!(ledger.assets.len(), 1);
}

#[test]
fn fee_check_follows_the_minimum() {
    assert_eq!(check_amount(0), Err(Errors::InsufficientAmount));
    assert_eq!(check_amount(9_999_999), Err(Errors::InsufficientAmount));
    assert_eq!(check_amount(10_000_000), Ok(()));
    assert_eq!(check_amount(u64::MAX), Ok(()));
}

#[test]
fn caller_check_accepts_only_the_distributor() {
    assert_eq!(check_caller(&distributor_program_id()), Ok(()));
    assert_eq!(check_caller(&nft_ct_program_id()), Err(ErrorCode::Unauthorized));
    assert_eq!(check_caller(&key(PAYER)), Err(ErrorCode::Unauthorized));
}

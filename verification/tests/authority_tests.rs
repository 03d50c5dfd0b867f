use anchor_lang::prelude::Pubkey;
use marketplace::address::{addr_eq, Address};
use marketplace::authority::{
    derive_marketplace_address, derive_rewards_address, derive_treasury_address,
    derive_vault_authority, verify_vault_authority,
};
use marketplace::bank::Bank;
use marketplace::registry::Registry;
use marketplace::state::{CustodyAccount, ProvenanceRecord};

fn addr(tag: u8) -> Address {
    Address::new(vec![tag; 32])
}

#[test]
fn derivation_matches_the_ledger_runtime() {
    let program_bytes = [7u8; 32];
    let program = Address::new(program_bytes.to_vec());
    let name = b"art".to_vec();
    let (derived, bump) = derive_marketplace_address(&name, &program).unwrap();

    let pid = Pubkey::new_from_array(program_bytes);
    let (expected, expected_bump) =
        Pubkey::try_find_program_address(&[b"marketplace", b"art"], &pid).unwrap();
    assert_eq!(derived.bytes, expected.to_bytes().to_vec());
    assert_eq!(bump, expected_bump);
    // the derivation is a real hash, not any of its inputs
    assert_ne!(derived.bytes, program_bytes.to_vec());
    assert_ne!(derived.bytes, b"art".to_vec());
}

#[test]
fn derivation_is_deterministic() {
    let program = addr(7);
    let market = addr(8);
    let asset = addr(9);
    let first = derive_vault_authority(&market, &asset, &program).unwrap();
    let second = derive_vault_authority(&market, &asset, &program).unwrap();
    assert_eq!(first.0.bytes, second.0.bytes);
    assert_eq!(first.1, second.1);
}

#[test]
fn distinct_namespaces_yield_distinct_addresses() {
    let program = addr(7);
    let market = addr(8);
    let (treasury, _) = derive_treasury_address(&market, &program).unwrap();
    let (rewards, _) = derive_rewards_address(&market, &program).unwrap();
    assert_ne!(treasury.bytes, rewards.bytes);
    assert_eq!(treasury.bytes.len(), 32);
    assert_eq!(rewards.bytes.len(), 32);
}

#[test]
fn vault_authority_proof_verifies_only_as_derived() {
    let program = addr(7);
    let market = addr(8);
    let asset = addr(9);
    let (authority, bump) = derive_vault_authority(&market, &asset, &program).unwrap();
    assert!(verify_vault_authority(&market, &asset, &program, &authority, bump));
    assert!(!verify_vault_authority(&market, &asset, &program, &authority, bump.wrapping_sub(1)));
    assert!(!verify_vault_authority(&market, &asset, &program, &addr(12), bump));
    // the proof is not transferable to another asset's vault
    let other_asset = addr(13);
    assert!(!verify_vault_authority(&market, &other_asset, &program, &authority, bump));
}

#[test]
fn initialize_derived_resolves_its_own_addresses() {
    let program = addr(7);
    let name = b"art".to_vec();
    let (market_addr, market_bump) = derive_marketplace_address(&name, &program).unwrap();
    let (treasury, treasury_bump) = derive_treasury_address(&market_addr, &program).unwrap();
    let (rewards, rewards_bump) = derive_rewards_address(&market_addr, &program).unwrap();

    let mut registry = Registry::new();
    let market = registry
        .initialize_derived(&program, b"art".to_vec(), 500, addr(1))
        .unwrap()
        .unwrap();
    assert_eq!(market.config.bump, market_bump);
    assert_eq!(market.config.treasury.bytes, treasury.bytes);
    assert_eq!(market.config.treasury_bump, treasury_bump);
    assert_eq!(market.config.rewards_mint.bytes, rewards.bytes);
    assert_eq!(market.config.rewards_bump, rewards_bump);

    // the derived storage address is deterministic from the name, so a
    // second marketplace named "art" collides
    let again = registry.initialize_derived(&program, b"art".to_vec(), 250, addr(2));
    assert!(matches!(again, Some(Err(marketplace::error::ErrorCode::AlreadyExists))));
}

#[test]
fn listing_with_self_resolved_authority() {
    let program = addr(7);
    let maker = addr(2);
    let asset = addr(4);
    let collection = addr(5);
    let name = b"art".to_vec();

    let (market_addr, market_bump) = derive_marketplace_address(&name, &program).unwrap();
    let (treasury, treasury_bump) = derive_treasury_address(&market_addr, &program).unwrap();
    let (rewards_mint, rewards_bump) = derive_rewards_address(&market_addr, &program).unwrap();
    let mut registry = Registry::new();
    let mut market = registry
        .initialize(
            name,
            500,
            addr(1),
            market_bump,
            treasury,
            treasury_bump,
            rewards_mint,
            rewards_bump,
        )
        .unwrap();

    let mut maker_custody = CustodyAccount {
        owner: maker.duplicate(),
        asset_id: asset.duplicate(),
        amount: 1,
    };
    let record = ProvenanceRecord {
        asset_id: asset.duplicate(),
        collection_id: collection.duplicate(),
        verified: true,
    };
    let r = market.list_derived(&program, &mut maker_custody, &record, &collection, 1_000);
    assert!(matches!(r, Some(Ok(()))));
    // the recorded authority is the one the resolver computes directly
    let (expected, expected_bump) =
        derive_vault_authority(&market_addr, &asset, &program).unwrap();
    assert!(addr_eq(&market.vaults[0].authority, &expected));
    assert_eq!(market.listings[0].bump, expected_bump);
}

#[test]
fn full_marketplace_scenario() {
    let program = addr(7);
    let admin = addr(1);
    let maker = addr(2);
    let buyer = addr(3);
    let asset = addr(4);
    let collection = addr(5);

    // the admin creates the marketplace "art" at 500 basis points
    let name = b"art".to_vec();
    let (market_addr, market_bump) = derive_marketplace_address(&name, &program).unwrap();
    let (treasury, treasury_bump) = derive_treasury_address(&market_addr, &program).unwrap();
    let (rewards_mint, rewards_bump) = derive_rewards_address(&market_addr, &program).unwrap();
    let mut registry = Registry::new();
    let mut market = registry
        .initialize(
            name,
            500,
            admin,
            market_bump,
            treasury.duplicate(),
            treasury_bump,
            rewards_mint,
            rewards_bump,
        )
        .unwrap();

    // the maker lists the asset at 2_000_000
    let (vault_authority, vault_bump) =
        derive_vault_authority(&market_addr, &asset, &program).unwrap();
    let mut maker_custody = CustodyAccount {
        owner: maker.duplicate(),
        asset_id: asset.duplicate(),
        amount: 1,
    };
    let record = ProvenanceRecord {
        asset_id: asset.duplicate(),
        collection_id: collection.duplicate(),
        verified: true,
    };
    market
        .list(
            &mut maker_custody,
            &record,
            &collection,
            2_000_000,
            vault_authority.duplicate(),
            vault_bump,
        )
        .unwrap();
    assert_eq!(maker_custody.amount, 0);
    assert!(market.has_listing(&asset));
    assert_eq!(market.vaults[0].amount, 1);
    assert!(addr_eq(&market.vaults[0].authority, &vault_authority));
    assert!(verify_vault_authority(
        &market_addr,
        &asset,
        &program,
        &market.vaults[0].authority,
        market.listings[0].bump,
    ));

    // the buyer purchases it
    let mut bank = Bank::empty();
    bank.set_balance(&buyer, 5_000_000);
    let mut buyer_custody = CustodyAccount {
        owner: buyer.duplicate(),
        asset_id: asset.duplicate(),
        amount: 0,
    };
    let settlement = market.purchase(&mut bank, &buyer, &asset, &mut buyer_custody).unwrap();
    assert_eq!(settlement.price, 2_000_000);
    assert_eq!(settlement.seller_amount, 1_900_000);
    assert_eq!(settlement.fee_leg, Some(100_000));
    assert_eq!(bank.balance_of(&maker), 1_900_000);
    assert_eq!(bank.balance_of(&treasury), 100_000);
    assert_eq!(bank.balance_of(&buyer), 3_000_000);
    assert_eq!(buyer_custody.amount, 1);
    assert!(!market.has_listing(&asset));
    assert_eq!(market.listings.len(), 0);
    assert_eq!(market.vaults.len(), 0);
}

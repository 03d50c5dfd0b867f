use marketplace::address::Address;
use marketplace::bank::Bank;
use marketplace::error::ErrorCode;
use marketplace::fees::fee_split;
use marketplace::market::Marketplace;
use marketplace::registry::Registry;
use marketplace::state::{CustodyAccount, MarketplaceConfig, ProvenanceRecord};

fn addr(tag: u8) -> Address {
    Address::new(vec![tag; 32])
}

fn test_config(fee_bps: u16) -> MarketplaceConfig {
    MarketplaceConfig {
        admin: addr(1),
        fee_bps,
        name: b"art".to_vec(),
        bump: 0,
        treasury: addr(10),
        treasury_bump: 0,
        rewards_mint: addr(11),
        rewards_bump: 0,
    }
}

fn custody_of(owner: &Address, asset: &Address, amount: u64) -> CustodyAccount {
    CustodyAccount { owner: owner.duplicate(), asset_id: asset.duplicate(), amount }
}

fn verified_record(asset: &Address, collection: &Address) -> ProvenanceRecord {
    ProvenanceRecord {
        asset_id: asset.duplicate(),
        collection_id: collection.duplicate(),
        verified: true,
    }
}

fn listed_market(fee_bps: u16, maker: &Address, asset: &Address, price: u64) -> Marketplace {
    let collection = addr(5);
    let mut market = Marketplace::new(test_config(fee_bps));
    let mut custody = custody_of(maker, asset, 1);
    let record = verified_record(asset, &collection);
    let r = market.list(&mut custody, &record, &collection, price, addr(20), 255);
    assert!(r.is_ok());
    market
}

#[test]
fn initialize_accepts_every_fee_in_bounds() {
    for fee in 0u16..=1000u16 {
        let mut registry = Registry::new();
        let r = registry.initialize(
            b"art".to_vec(),
            fee,
            addr(1),
            0,
            addr(10),
            0,
            addr(11),
            0,
        );
        assert!(r.is_ok());
        assert_eq!(r.unwrap().config.fee_bps, fee);
    }
}

#[test]
fn initialize_rejects_fee_over_bound() {
    for fee in [1001u16, 2000, 10000, u16::MAX] {
        let mut registry = Registry::new();
        let r = registry.initialize(
            b"art".to_vec(),
            fee,
            addr(1),
            0,
            addr(10),
            0,
            addr(11),
            0,
        );
        assert!(matches!(r, Err(ErrorCode::InvalidFee)));
    }
}

#[test]
fn initialize_rejects_bad_names() {
    let mut registry = Registry::new();
    let r = registry.initialize(Vec::new(), 500, addr(1), 0, addr(10), 0, addr(11), 0);
    assert!(matches!(r, Err(ErrorCode::InvalidPrice)));
    let r = registry.initialize(vec![b'a'; 33], 500, addr(1), 0, addr(10), 0, addr(11), 0);
    assert!(matches!(r, Err(ErrorCode::InvalidPrice)));
    let r = registry.initialize(vec![b'a'; 32], 500, addr(1), 0, addr(10), 0, addr(11), 0);
    assert!(r.is_ok());
}

#[test]
fn initialize_rejects_duplicate_name() {
    let mut registry = Registry::new();
    let first = registry.initialize(b"art".to_vec(), 500, addr(1), 0, addr(10), 0, addr(11), 0);
    assert!(first.is_ok());
    let second = registry.initialize(b"art".to_vec(), 250, addr(2), 0, addr(10), 0, addr(11), 0);
    assert!(matches!(second, Err(ErrorCode::AlreadyExists)));
    let other = registry.initialize(b"toys".to_vec(), 250, addr(2), 0, addr(10), 0, addr(11), 0);
    assert!(other.is_ok());
}

#[test]
fn fee_split_partitions_the_price() {
    let (fee, seller) = fee_split(1_000_000, 250).unwrap();
    assert_eq!(fee, 25_000);
    assert_eq!(seller, 975_000);
    for (price, bps) in [(1u64, 1000u16), (9_999, 1), (10_000, 1), (123_456_789, 777)] {
        let (fee, seller) = fee_split(price, bps).unwrap();
        assert_eq!(fee + seller, price);
        assert_eq!(fee, price * bps as u64 / 10_000);
    }
}

#[test]
fn fee_split_zero_rate_gives_whole_price_to_seller() {
    let (fee, seller) = fee_split(2_000_000, 0).unwrap();
    assert_eq!(fee, 0);
    assert_eq!(seller, 2_000_000);
}

#[test]
fn fee_split_overflow_is_rejected() {
    assert!(matches!(fee_split(u64::MAX, 1000), Err(ErrorCode::ArithmeticOverflow)));
    let (fee, seller) = fee_split(u64::MAX, 0).unwrap();
    assert_eq!(fee, 0);
    assert_eq!(seller, u64::MAX);
}

#[test]
fn list_rejects_zero_price() {
    let maker = addr(2);
    let asset = addr(4);
    let collection = addr(5);
    let mut market = Marketplace::new(test_config(500));
    let mut custody = custody_of(&maker, &asset, 1);
    let record = verified_record(&asset, &collection);
    let r = market.list(&mut custody, &record, &collection, 0, addr(20), 255);
    assert!(matches!(r, Err(ErrorCode::InvalidPrice)));
    assert_eq!(custody.amount, 1);
    assert!(!market.has_listing(&asset));
}

#[test]
fn list_rejects_missing_unit() {
    let maker = addr(2);
    let asset = addr(4);
    let collection = addr(5);
    let mut market = Marketplace::new(test_config(500));
    let record = verified_record(&asset, &collection);
    for amount in [0u64, 2, 5] {
        let mut custody = custody_of(&maker, &asset, amount);
        let r = market.list(&mut custody, &record, &collection, 1_000, addr(20), 255);
        assert!(matches!(r, Err(ErrorCode::InsufficientFunds)));
        assert_eq!(custody.amount, amount);
    }
}

#[test]
fn list_rejects_unverified_collection() {
    let maker = addr(2);
    let asset = addr(4);
    let collection = addr(5);
    let mut market = Marketplace::new(test_config(500));

    let mut custody = custody_of(&maker, &asset, 1);
    let unverified = ProvenanceRecord {
        asset_id: asset.duplicate(),
        collection_id: collection.duplicate(),
        verified: false,
    };
    let r = market.list(&mut custody, &unverified, &collection, 1_000, addr(20), 255);
    assert!(matches!(r, Err(ErrorCode::CollectionNotVerified)));
    assert_eq!(custody.amount, 1);

    let mismatched = verified_record(&asset, &addr(6));
    let r = market.list(&mut custody, &mismatched, &collection, 1_000, addr(20), 255);
    assert!(matches!(r, Err(ErrorCode::CollectionNotVerified)));
    assert_eq!(custody.amount, 1);
    assert!(!market.has_listing(&asset));
}

#[test]
fn list_rejects_double_listing() {
    let maker = addr(2);
    let asset = addr(4);
    let collection = addr(5);
    let mut market = listed_market(500, &maker, &asset, 1_000);
    let mut custody = custody_of(&maker, &asset, 1);
    let record = verified_record(&asset, &collection);
    let r = market.list(&mut custody, &record, &collection, 2_000, addr(20), 255);
    assert!(matches!(r, Err(ErrorCode::AlreadyExists)));
}

#[test]
fn list_escrows_exactly_one_unit() {
    let maker = addr(2);
    let asset = addr(4);
    let collection = addr(5);
    let mut market = Marketplace::new(test_config(500));
    let mut custody = custody_of(&maker, &asset, 1);
    let record = verified_record(&asset, &collection);
    let r = market.list(&mut custody, &record, &collection, 1_000, addr(20), 254);
    assert!(r.is_ok());
    assert_eq!(custody.amount, 0);
    assert!(market.has_listing(&asset));
    assert_eq!(market.listings.len(), 1);
    assert_eq!(market.vaults.len(), 1);
    assert_eq!(market.listings[0].price, 1_000);
    assert_eq!(market.listings[0].bump, 254);
    assert_eq!(market.listings[0].maker.bytes, maker.bytes);
    assert_eq!(market.vaults[0].amount, 1);
    assert_eq!(market.vaults[0].asset_id.bytes, asset.bytes);
    assert_eq!(market.vaults[0].authority.bytes, addr(20).bytes);
}

#[test]
fn delist_returns_unit_and_closes_everything() {
    let maker = addr(2);
    let asset = addr(4);
    let mut market = listed_market(500, &maker, &asset, 1_000);
    let mut custody = custody_of(&maker, &asset, 0);
    let r = market.delist(&maker, &asset, &mut custody);
    assert!(r.is_ok());
    assert_eq!(custody.amount, 1);
    assert!(!market.has_listing(&asset));
    assert_eq!(market.listings.len(), 0);
    assert_eq!(market.vaults.len(), 0);
}

#[test]
fn delist_rejects_non_maker() {
    let maker = addr(2);
    let intruder = addr(3);
    let asset = addr(4);
    let mut market = listed_market(500, &maker, &asset, 1_000);
    let mut custody = custody_of(&intruder, &asset, 0);
    let r = market.delist(&intruder, &asset, &mut custody);
    assert!(matches!(r, Err(ErrorCode::NotOwner)));
    assert_eq!(custody.amount, 0);
    assert!(market.has_listing(&asset));
}

#[test]
fn delist_unknown_asset_is_record_not_found() {
    let maker = addr(2);
    let mut market = Marketplace::new(test_config(500));
    let asset = addr(4);
    let mut custody = custody_of(&maker, &asset, 0);
    let r = market.delist(&maker, &asset, &mut custody);
    assert!(matches!(r, Err(ErrorCode::RecordNotFound)));
}

#[test]
fn purchase_settles_and_splits_the_fee() {
    let maker = addr(2);
    let buyer = addr(3);
    let asset = addr(4);
    let treasury = addr(10);
    let mut market = listed_market(250, &maker, &asset, 1_000_000);
    let mut bank = Bank::empty();
    bank.set_balance(&buyer, 1_500_000);
    let mut buyer_custody = custody_of(&buyer, &asset, 0);
    let settlement = market.purchase(&mut bank, &buyer, &asset, &mut buyer_custody).unwrap();
    assert_eq!(settlement.price, 1_000_000);
    assert_eq!(settlement.seller_amount, 975_000);
    assert_eq!(settlement.fee_leg, Some(25_000));
    assert_eq!(bank.balance_of(&buyer), 500_000);
    assert_eq!(bank.balance_of(&maker), 975_000);
    assert_eq!(bank.balance_of(&treasury), 25_000);
    assert_eq!(buyer_custody.amount, 1);
    assert!(!market.has_listing(&asset));
    assert_eq!(market.vaults.len(), 0);
}

#[test]
fn purchase_zero_fee_skips_the_treasury_leg() {
    let maker = addr(2);
    let buyer = addr(3);
    let asset = addr(4);
    let treasury = addr(10);
    let mut market = listed_market(0, &maker, &asset, 1_000_000);
    let mut bank = Bank::empty();
    bank.set_balance(&buyer, 1_000_000);
    let mut buyer_custody = custody_of(&buyer, &asset, 0);
    let settlement = market.purchase(&mut bank, &buyer, &asset, &mut buyer_custody).unwrap();
    assert_eq!(settlement.seller_amount, 1_000_000);
    assert_eq!(settlement.fee_leg, None);
    assert_eq!(bank.balance_of(&maker), 1_000_000);
    assert_eq!(bank.balance_of(&treasury), 0);
    assert_eq!(bank.balance_of(&buyer), 0);
}

#[test]
fn purchase_skips_the_fee_leg_when_the_fee_rounds_to_zero() {
    // 9_999 * 1 / 10_000 floors to 0: the rate is positive, the fee is not
    let maker = addr(2);
    let buyer = addr(3);
    let asset = addr(4);
    let treasury = addr(10);
    let mut market = listed_market(1, &maker, &asset, 9_999);
    let mut bank = Bank::empty();
    bank.set_balance(&buyer, 9_999);
    let mut buyer_custody = custody_of(&buyer, &asset, 0);
    let settlement = market.purchase(&mut bank, &buyer, &asset, &mut buyer_custody).unwrap();
    assert_eq!(settlement.seller_amount, 9_999);
    assert_eq!(settlement.fee_leg, None);
    assert_eq!(bank.balance_of(&maker), 9_999);
    assert_eq!(bank.balance_of(&treasury), 0);
}

#[test]
fn purchase_by_the_maker_nets_only_the_fee() {
    // the maker buys back a listing: the seller leg is a self-transfer
    let maker = addr(2);
    let asset = addr(4);
    let treasury = addr(10);
    let mut market = listed_market(250, &maker, &asset, 1_000_000);
    let mut bank = Bank::empty();
    bank.set_balance(&maker, 1_000_000);
    let mut maker_custody = custody_of(&maker, &asset, 0);
    let settlement = market.purchase(&mut bank, &maker, &asset, &mut maker_custody).unwrap();
    assert_eq!(settlement.fee_leg, Some(25_000));
    assert_eq!(bank.balance_of(&maker), 975_000);
    assert_eq!(bank.balance_of(&treasury), 25_000);
    assert_eq!(maker_custody.amount, 1);
    assert!(!market.has_listing(&asset));
}

#[test]
fn purchase_rejects_underfunded_buyer() {
    let maker = addr(2);
    let buyer = addr(3);
    let asset = addr(4);
    let mut market = listed_market(500, &maker, &asset, 1_000_000);
    let mut bank = Bank::empty();
    bank.set_balance(&buyer, 999_999);
    let mut buyer_custody = custody_of(&buyer, &asset, 0);
    let r = market.purchase(&mut bank, &buyer, &asset, &mut buyer_custody);
    assert!(matches!(r, Err(ErrorCode::InsufficientFunds)));
    assert_eq!(bank.balance_of(&buyer), 999_999);
    assert_eq!(buyer_custody.amount, 0);
    assert!(market.has_listing(&asset));
}

#[test]
fn purchase_rejects_fee_overflow() {
    let maker = addr(2);
    let buyer = addr(3);
    let asset = addr(4);
    let mut market = listed_market(1000, &maker, &asset, u64::MAX);
    let mut bank = Bank::empty();
    bank.set_balance(&buyer, u64::MAX);
    let mut buyer_custody = custody_of(&buyer, &asset, 0);
    let r = market.purchase(&mut bank, &buyer, &asset, &mut buyer_custody);
    assert!(matches!(r, Err(ErrorCode::ArithmeticOverflow)));
    assert_eq!(bank.balance_of(&buyer), u64::MAX);
    assert!(market.has_listing(&asset));
}

#[test]
fn purchase_rejects_maker_credit_overflow() {
    let maker = addr(2);
    let buyer = addr(3);
    let asset = addr(4);
    let mut market = listed_market(0, &maker, &asset, 1_000);
    let mut bank = Bank::empty();
    bank.set_balance(&buyer, 1_000);
    bank.set_balance(&maker, u64::MAX);
    let mut buyer_custody = custody_of(&buyer, &asset, 0);
    let r = market.purchase(&mut bank, &buyer, &asset, &mut buyer_custody);
    assert!(matches!(r, Err(ErrorCode::ArithmeticOverflow)));
    assert_eq!(bank.balance_of(&buyer), 1_000);
    assert_eq!(bank.balance_of(&maker), u64::MAX);
    assert!(market.has_listing(&asset));
}

#[test]
fn terminal_transitions_are_mutually_exclusive() {
    let maker = addr(2);
    let buyer = addr(3);
    let asset = addr(4);

    // purchase first, then both terminal calls fail with RecordNotFound
    let mut market = listed_market(500, &maker, &asset, 1_000);
    let mut bank = Bank::empty();
    bank.set_balance(&buyer, 10_000);
    let mut buyer_custody = custody_of(&buyer, &asset, 0);
    assert!(market.purchase(&mut bank, &buyer, &asset, &mut buyer_custody).is_ok());
    let again = market.purchase(&mut bank, &buyer, &asset, &mut buyer_custody);
    assert!(matches!(again, Err(ErrorCode::RecordNotFound)));
    let mut maker_custody = custody_of(&maker, &asset, 0);
    let delisted = market.delist(&maker, &asset, &mut maker_custody);
    assert!(matches!(delisted, Err(ErrorCode::RecordNotFound)));

    // delist first, then both terminal calls fail with RecordNotFound
    let mut market = listed_market(500, &maker, &asset, 1_000);
    let mut maker_custody = custody_of(&maker, &asset, 0);
    assert!(market.delist(&maker, &asset, &mut maker_custody).is_ok());
    let delisted = market.delist(&maker, &asset, &mut maker_custody);
    assert!(matches!(delisted, Err(ErrorCode::RecordNotFound)));
    let mut buyer_custody = custody_of(&buyer, &asset, 0);
    let bought = market.purchase(&mut bank, &buyer, &asset, &mut buyer_custody);
    assert!(matches!(bought, Err(ErrorCode::RecordNotFound)));
}

#[test]
fn other_listings_survive_a_settlement() {
    let maker = addr(2);
    let buyer = addr(3);
    let asset_a = addr(4);
    let asset_b = addr(6);
    let collection = addr(5);
    let mut market = listed_market(500, &maker, &asset_a, 1_000);
    let mut custody_b = custody_of(&maker, &asset_b, 1);
    let record_b = verified_record(&asset_b, &collection);
    assert!(market.list(&mut custody_b, &record_b, &collection, 2_000, addr(21), 253).is_ok());

    let mut bank = Bank::empty();
    bank.set_balance(&buyer, 10_000);
    let mut buyer_custody = custody_of(&buyer, &asset_a, 0);
    assert!(market.purchase(&mut bank, &buyer, &asset_a, &mut buyer_custody).is_ok());
    assert!(!market.has_listing(&asset_a));
    assert!(market.has_listing(&asset_b));
    assert_eq!(market.listings.len(), 1);
    assert_eq!(market.listings[0].price, 2_000);
    assert_eq!(market.vaults[0].amount, 1);
}

#[test]
fn bank_transfer_moves_funds_and_rejects_shortfalls() {
    let alice = addr(30);
    let bob = addr(31);
    let mut bank = Bank::empty();
    bank.set_balance(&alice, 100);
    assert!(bank.transfer(&alice, &bob, 60).is_ok());
    assert_eq!(bank.balance_of(&alice), 40);
    assert_eq!(bank.balance_of(&bob), 60);
    let r = bank.transfer(&alice, &bob, 41);
    assert!(matches!(r, Err(ErrorCode::InsufficientFunds)));
    assert_eq!(bank.balance_of(&alice), 40);
    // a self-transfer nets to nothing
    assert!(bank.transfer(&alice, &alice, 40).is_ok());
    assert_eq!(bank.balance_of(&alice), 40);
    // a credit past u64::MAX is refused
    bank.set_balance(&bob, u64::MAX);
    let r = bank.transfer(&alice, &bob, 1);
    assert!(matches!(r, Err(ErrorCode::ArithmeticOverflow)));
    assert_eq!(bank.balance_of(&bob), u64::MAX);
}

use unicus_ts::errors::{MarketError, MintError};
use unicus_ts::market::Market;

const CREATOR: u64 = 1;
const TREASURY: u64 = 2;
const BUYER: u64 = 3;
const MINTER: u64 = 4;
const ASSET: u64 = 77;

fn market_with_asset() -> Market {
    let mut m = Market::new();
    m.fund_account(CREATOR, 1_000);
    assert_eq!(m.mint_nft(CREATOR, ASSET, 5), Ok(()));
    m
}

#[test]
fn mint_rejects_royalty_above_ceiling() {
    let mut m = Market::new();
    assert_eq!(m.mint_nft(CREATOR, ASSET, 11), Err(MintError::RoyaltyExceeded));
    assert_eq!(m.holder_of(ASSET), None);
}

#[test]
fn mint_rejects_duplicate_asset() {
    let mut m = market_with_asset();
    assert_eq!(m.mint_nft(BUYER, ASSET, 5), Err(MintError::MintFailed));
    assert_eq!(m.holder_of(ASSET), Some(CREATOR));
}

#[test]
fn create_order_charges_listing_fee_before_custody() {
    let mut m = market_with_asset();
    assert_eq!(m.create_order(CREATOR, TREASURY, ASSET, String::from("note"), 100, 255), Ok(()));
    assert_eq!(m.account_balance(CREATOR), 998);
    assert_eq!(m.account_balance(TREASURY), 2);
    assert_eq!(m.holder_of(ASSET), None);
    assert!(m.has_order(ASSET));
    assert_eq!(m.order_price(ASSET), Some(100));
}

#[test]
fn create_order_rejects_second_listing_for_same_asset() {
    let mut m = market_with_asset();
    assert_eq!(m.create_order(CREATOR, TREASURY, ASSET, String::new(), 100, 255), Ok(()));
    assert_eq!(
        m.create_order(CREATOR, TREASURY, ASSET, String::new(), 100, 255),
        Err(MarketError::AlreadyListed)
    );
}

#[test]
fn create_order_rejects_creator_who_cannot_pay_fee() {
    let mut m = market_with_asset();
    m.fund_account(CREATOR, 1);
    assert_eq!(
        m.create_order(CREATOR, TREASURY, ASSET, String::new(), 100, 255),
        Err(MarketError::SolTransferFailed)
    );
    assert_eq!(m.account_balance(CREATOR), 1);
    assert_eq!(m.holder_of(ASSET), Some(CREATOR));
}

#[test]
fn create_order_rejects_non_holder() {
    let mut m = market_with_asset();
    m.fund_account(BUYER, 1_000);
    assert_eq!(
        m.create_order(BUYER, TREASURY, ASSET, String::new(), 100, 255),
        Err(MarketError::TokenTransferFailed)
    );
    assert_eq!(m.holder_of(ASSET), Some(CREATOR));
}

#[test]
fn cancel_order_round_trip_returns_asset_and_costs_only_the_fee() {
    let mut m = market_with_asset();
    assert_eq!(m.create_order(CREATOR, TREASURY, ASSET, String::from("note"), 100, 255), Ok(()));
    assert_eq!(m.cancel_order(ASSET, CREATOR), Ok(()));
    assert_eq!(m.holder_of(ASSET), Some(CREATOR));
    assert!(!m.has_order(ASSET));
    assert_eq!(m.account_balance(CREATOR), 998);
    assert_eq!(m.account_balance(TREASURY), 2);
}

#[test]
fn cancel_order_rejects_non_creator() {
    let mut m = market_with_asset();
    assert_eq!(m.create_order(CREATOR, TREASURY, ASSET, String::new(), 100, 255), Ok(()));
    assert_eq!(m.cancel_order(ASSET, BUYER), Err(MarketError::Unauthorized));
    assert!(m.has_order(ASSET));
}

#[test]
fn fill_order_splits_royalty_and_proceeds() {
    let mut m = market_with_asset();
    assert_eq!(m.create_order(CREATOR, TREASURY, ASSET, String::new(), 1_000, 255), Ok(()));
    m.fund_account(BUYER, 5_000);
    let creator_before = m.account_balance(CREATOR);
    assert_eq!(m.fill_order(ASSET, BUYER, MINTER, 10), Ok(()));
    assert_eq!(m.account_balance(MINTER), 100);
    assert_eq!(m.account_balance(CREATOR), creator_before + 900);
    assert_eq!(m.account_balance(BUYER), 4_000);
    assert_eq!(m.holder_of(ASSET), Some(BUYER));
    assert!(!m.has_order(ASSET));
}

#[test]
fn fill_order_rejects_poor_buyer() {
    let mut m = market_with_asset();
    assert_eq!(m.create_order(CREATOR, TREASURY, ASSET, String::new(), 1_000, 255), Ok(()));
    m.fund_account(BUYER, 999);
    assert_eq!(m.fill_order(ASSET, BUYER, MINTER, 10), Err(MarketError::InsufficientMoney));
    assert_eq!(m.account_balance(BUYER), 999);
    assert!(m.has_order(ASSET));
}

#[test]
fn filled_order_is_terminal() {
    let mut m = market_with_asset();
    assert_eq!(m.create_order(CREATOR, TREASURY, ASSET, String::new(), 100, 255), Ok(()));
    m.fund_account(BUYER, 1_000);
    assert_eq!(m.fill_order(ASSET, BUYER, MINTER, 10), Ok(()));
    assert_eq!(m.fill_order(ASSET, BUYER, MINTER, 10), Err(MarketError::ListingNotFound));
    assert_eq!(m.cancel_order(ASSET, CREATOR), Err(MarketError::ListingNotFound));
}

#[test]
fn cancelled_order_is_terminal() {
    let mut m = market_with_asset();
    assert_eq!(m.create_order(CREATOR, TREASURY, ASSET, String::new(), 100, 255), Ok(()));
    assert_eq!(m.cancel_order(ASSET, CREATOR), Ok(()));
    assert_eq!(m.cancel_order(ASSET, CREATOR), Err(MarketError::ListingNotFound));
    m.fund_account(BUYER, 1_000);
    assert_eq!(m.fill_order(ASSET, BUYER, MINTER, 10), Err(MarketError::ListingNotFound));
}

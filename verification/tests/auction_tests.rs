use unicus_ts::errors::MarketError;
use unicus_ts::market::Market;

const CREATOR: u64 = 1;
const TREASURY: u64 = 2;
const BIDDER_A: u64 = 3;
const BIDDER_B: u64 = 4;
const MINTER: u64 = 5;
const ASSET: u64 = 88;
const START: u128 = 1_000;
const END: u128 = 2_000;

fn open_auction(reserve: u64) -> Market {
    let mut m = Market::new();
    m.fund_account(CREATOR, 1_000);
    assert_eq!(m.mint_nft(CREATOR, ASSET, 5), Ok(()));
    assert_eq!(
        m.create_auction(CREATOR, TREASURY, ASSET, String::from("lot"), reserve, START, END, START, 7),
        Ok(())
    );
    m
}

#[test]
fn create_auction_rejects_end_time_in_the_past() {
    let mut m = Market::new();
    m.fund_account(CREATOR, 1_000);
    assert_eq!(m.mint_nft(CREATOR, ASSET, 5), Ok(()));
    assert_eq!(
        m.create_auction(CREATOR, TREASURY, ASSET, String::new(), 100, START, END, END + 1, 7),
        Err(MarketError::InvalidEndTime)
    );
    assert_eq!(m.holder_of(ASSET), Some(CREATOR));
}

#[test]
fn create_auction_charges_listing_fee_and_takes_custody() {
    let m = open_auction(100);
    assert_eq!(m.account_balance(CREATOR), 998);
    assert_eq!(m.account_balance(TREASURY), 2);
    assert_eq!(m.holder_of(ASSET), None);
    assert!(m.has_auction(ASSET));
    assert_eq!(m.auction_price(ASSET), Some(100));
    assert_eq!(m.auction_refund_receiver(ASSET), Some(CREATOR));
    assert_eq!(m.auction_escrow(ASSET), Some(0));
}

#[test]
fn refund_chain_repays_the_outbid_leader() {
    let mut m = open_auction(100);
    m.fund_account(BIDDER_A, 500);
    m.fund_account(BIDDER_B, 500);

    assert_eq!(m.bid(ASSET, BIDDER_A, 150, START + 1), Ok(()));
    assert_eq!(m.auction_escrow(ASSET), Some(150));
    assert_eq!(m.account_balance(BIDDER_A), 350);
    assert_eq!(m.account_balance(BIDDER_B), 500);
    assert_eq!(m.auction_refund_receiver(ASSET), Some(BIDDER_A));

    assert_eq!(m.bid(ASSET, BIDDER_B, 200, START + 2), Ok(()));
    assert_eq!(m.auction_escrow(ASSET), Some(200));
    assert_eq!(m.account_balance(BIDDER_A), 500);
    assert_eq!(m.account_balance(BIDDER_B), 300);
    assert_eq!(m.auction_refund_receiver(ASSET), Some(BIDDER_B));
    assert_eq!(m.auction_price(ASSET), Some(200));
}

#[test]
fn bid_below_current_price_is_rejected_even_against_the_reserve() {
    let mut m = open_auction(100);
    m.fund_account(BIDDER_A, 500);
    assert_eq!(m.bid(ASSET, BIDDER_A, 99, START + 1), Err(MarketError::InsufficientMoney));
    assert_eq!(m.bid(ASSET, BIDDER_A, 100, START + 1), Ok(()));
    assert_eq!(m.bid(ASSET, BIDDER_B, 99, START + 2), Err(MarketError::InsufficientMoney));
    assert_eq!(m.auction_price(ASSET), Some(100));
}

#[test]
fn bid_at_or_after_end_time_is_rejected() {
    let mut m = open_auction(100);
    m.fund_account(BIDDER_A, 500);
    assert_eq!(m.bid(ASSET, BIDDER_A, 150, END), Err(MarketError::AuctionEnded));
    assert_eq!(m.bid(ASSET, BIDDER_A, 150, END + 5), Err(MarketError::AuctionEnded));
    assert_eq!(m.auction_escrow(ASSET), Some(0));
}

#[test]
fn bid_by_the_creator_is_rejected() {
    let mut m = open_auction(100);
    assert_eq!(m.bid(ASSET, CREATOR, 150, START + 1), Err(MarketError::InvalidReceiver));
}

#[test]
fn bid_by_a_poor_bidder_is_rejected_without_refunding() {
    let mut m = open_auction(100);
    m.fund_account(BIDDER_A, 500);
    assert_eq!(m.bid(ASSET, BIDDER_A, 150, START + 1), Ok(()));
    m.fund_account(BIDDER_B, 100);
    assert_eq!(m.bid(ASSET, BIDDER_B, 200, START + 2), Err(MarketError::SolTransferFailed));
    assert_eq!(m.account_balance(BIDDER_A), 350);
    assert_eq!(m.auction_escrow(ASSET), Some(150));
    assert_eq!(m.auction_refund_receiver(ASSET), Some(BIDDER_A));
}

#[test]
fn resolve_before_end_time_always_fails() {
    let mut m = open_auction(100);
    assert_eq!(
        m.auction_resolve(ASSET, MINTER, 10, END - 1),
        Err(MarketError::AuctionNotEnded)
    );
    m.fund_account(BIDDER_A, 500);
    assert_eq!(m.bid(ASSET, BIDDER_A, 150, START + 1), Ok(()));
    assert_eq!(
        m.auction_resolve(ASSET, MINTER, 10, END - 1),
        Err(MarketError::AuctionNotEnded)
    );
    assert!(m.has_auction(ASSET));
}

#[test]
fn resolve_with_no_bids_returns_asset_without_moving_funds() {
    let mut m = open_auction(100);
    let creator_before = m.account_balance(CREATOR);
    let treasury_before = m.account_balance(TREASURY);
    assert_eq!(m.auction_resolve(ASSET, MINTER, 10, END), Ok(()));
    assert_eq!(m.holder_of(ASSET), Some(CREATOR));
    assert!(!m.has_auction(ASSET));
    assert_eq!(m.account_balance(CREATOR), creator_before);
    assert_eq!(m.account_balance(TREASURY), treasury_before);
    assert_eq!(m.account_balance(MINTER), 0);
}

#[test]
fn resolve_with_winner_splits_vault_and_hands_over_asset() {
    let mut m = open_auction(100);
    m.fund_account(BIDDER_A, 2_000);
    assert_eq!(m.bid(ASSET, BIDDER_A, 1_000, START + 1), Ok(()));
    let creator_before = m.account_balance(CREATOR);
    assert_eq!(m.auction_resolve(ASSET, MINTER, 10, END), Ok(()));
    assert_eq!(m.account_balance(MINTER), 100);
    assert_eq!(m.account_balance(CREATOR), creator_before + 900);
    assert_eq!(m.account_balance(BIDDER_A), 1_000);
    assert_eq!(m.holder_of(ASSET), Some(BIDDER_A));
    assert!(!m.has_auction(ASSET));
}

#[test]
fn cancel_after_end_time_always_fails() {
    let mut m = open_auction(100);
    assert_eq!(m.cancel_auction(ASSET, END), Err(MarketError::AuctionEnded));
    m.fund_account(BIDDER_A, 500);
    assert_eq!(m.bid(ASSET, BIDDER_A, 150, START + 1), Ok(()));
    assert_eq!(m.cancel_auction(ASSET, END + 3), Err(MarketError::AuctionEnded));
    assert!(m.has_auction(ASSET));
}

#[test]
fn cancel_before_end_refunds_leader_and_returns_asset() {
    let mut m = open_auction(100);
    m.fund_account(BIDDER_A, 500);
    assert_eq!(m.bid(ASSET, BIDDER_A, 150, START + 1), Ok(()));
    assert_eq!(m.cancel_auction(ASSET, START + 2), Ok(()));
    assert_eq!(m.account_balance(BIDDER_A), 500);
    assert_eq!(m.holder_of(ASSET), Some(CREATOR));
    assert!(!m.has_auction(ASSET));
}

#[test]
fn resolved_auction_is_terminal() {
    let mut m = open_auction(100);
    assert_eq!(m.auction_resolve(ASSET, MINTER, 10, END), Ok(()));
    assert_eq!(m.auction_resolve(ASSET, MINTER, 10, END), Err(MarketError::ListingNotFound));
    assert_eq!(m.cancel_auction(ASSET, START + 1), Err(MarketError::ListingNotFound));
    m.fund_account(BIDDER_A, 500);
    assert_eq!(m.bid(ASSET, BIDDER_A, 150, START + 1), Err(MarketError::ListingNotFound));
}

#[test]
fn cancelled_auction_is_terminal() {
    let mut m = open_auction(100);
    assert_eq!(m.cancel_auction(ASSET, START + 1), Ok(()));
    assert_eq!(m.cancel_auction(ASSET, START + 1), Err(MarketError::ListingNotFound));
    assert_eq!(m.auction_resolve(ASSET, MINTER, 10, END), Err(MarketError::ListingNotFound));
}

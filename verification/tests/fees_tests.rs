use unicus_ts::errors::MintError;
use unicus_ts::fees::{check_royalty, platform_fee, royalty_amount, seller_proceeds};
use unicus_ts::records::{Auction, Order};

#[test]
fn platform_fee_is_two_percent_truncating() {
    assert_eq!(platform_fee(100), 2);
    assert_eq!(platform_fee(1000), 20);
    assert_eq!(platform_fee(0), 0);
    assert_eq!(platform_fee(49), 0);
    assert_eq!(platform_fee(50), 1);
    assert_eq!(platform_fee(99), 1);
    assert_eq!(platform_fee(101), 2);
}

#[test]
fn royalty_is_points_percent_truncating() {
    assert_eq!(royalty_amount(1000, 10), 100);
    assert_eq!(royalty_amount(1000, 0), 0);
    assert_eq!(royalty_amount(999, 10), 99);
    assert_eq!(royalty_amount(1, 100), 1);
    assert_eq!(royalty_amount(33, 3), 0);
}

#[test]
fn proceeds_are_price_minus_royalty() {
    assert_eq!(seller_proceeds(1000, 100), 900);
    assert_eq!(seller_proceeds(5, 5), 0);
    assert_eq!(seller_proceeds(7, 0), 7);
}

#[test]
fn royalty_ceiling_is_ten() {
    assert_eq!(check_royalty(0), Ok(()));
    assert_eq!(check_royalty(10), Ok(()));
    assert_eq!(check_royalty(11), Err(MintError::RoyaltyExceeded));
    assert_eq!(check_royalty(u16::MAX), Err(MintError::RoyaltyExceeded));
}

#[test]
fn record_space_counts_memo_bytes_exactly() {
    assert_eq!(Order::space(""), 85);
    assert_eq!(Order::space("hello"), 90);
    assert_eq!(Auction::space(""), 149);
    assert_eq!(Auction::space("hello"), 154);
}

use vstd::prelude::*;

verus! {

use crate::errors::MintError;

/// Highest royalty configuration accepted when an asset is registered.
pub const ROYALTY_CEILING: u16 = 10;

/// Platform fee levied when a listing is created: two percent of the price,
/// truncating integer division.
pub open spec fn platform_fee_spec(price: u64) -> int {
    price * 2 / 100
}

/// Royalty cut at settlement: `points` percent of the price, truncating.
/// `points` is a percentage (0 to 100), not a basis-point fraction; the
/// division by 100 follows the settlement arithmetic this engine commits to.
pub open spec fn royalty_spec(price: u64, points: u16) -> int {
    price * points / 100
}

/// What the seller receives once the royalty is carved out of the price.
pub open spec fn proceeds_spec(price: u64, points: u16) -> int {
    price - royalty_spec(price, points)
}

/// The royalty never exceeds the price while `points` stays within 100.
pub proof fn lemma_royalty_le_price(price: u64, points: u16)
    requires
        points <= 100,
    ensures
        0 <= royalty_spec(price, points) <= price,
{
    assert(0 <= price * points / 100 <= price) by (nonlinear_arith)
        requires
            points <= 100,
            0 <= price,
        ;
}

/// The fee is at most the price and never negative.
pub proof fn lemma_platform_fee_le_price(price: u64)
    ensures
        0 <= platform_fee_spec(price) <= price,
{
    assert(0 <= price * 2 / 100 <= price) by (nonlinear_arith)
        requires
            0 <= price,
        ;
}

/// Platform fee of a listing priced `price`.
pub fn platform_fee(price: u64) -> (r: u64)
    requires
        price * 2 <= u64::MAX,
    ensures
        r == platform_fee_spec(price),
{
    proof {
        lemma_platform_fee_le_price(price);
    }
    price * 2 / 100
}

/// Royalty owed at settlement for a sale at `price` with the given
/// percentage `points`.
pub fn royalty_amount(price: u64, points: u16) -> (r: u64)
    requires
        price * points <= u64::MAX,
        points <= 100,
    ensures
        r == royalty_spec(price, points),
{
    proof {
        lemma_royalty_le_price(price, points);
    }
    price * (points as u64) / 100
}

/// Seller proceeds once the royalty is taken out.
pub fn seller_proceeds(price: u64, royalty: u64) -> (r: u64)
    requires
        royalty <= price,
    ensures
        r == price - royalty,
{
    price - royalty
}

/// Registration guardrail: a royalty configuration above the ceiling is
/// rejected before the asset is minted.
pub fn check_royalty(royalty: u16) -> (r: Result<(), MintError>)
    ensures
        r is Ok <==> royalty <= ROYALTY_CEILING,
        r is Err ==> r == Err::<(), MintError>(MintError::RoyaltyExceeded),
{
    if royalty > ROYALTY_CEILING {
        Err(MintError::RoyaltyExceeded)
    } else {
        Ok(())
    }
}

} // verus!

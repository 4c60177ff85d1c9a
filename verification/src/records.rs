use vstd::prelude::*;

verus! {

use vstd::string::StringSliceAdditionalSpecFns;

/// An open fixed-price listing.  The record is immutable once created and
/// lives exactly as long as the escrow vault that holds its asset.
pub struct Order {
    /// Account that listed the asset and receives the sale proceeds.
    pub creator: u64,
    /// Identifier of the escrowed asset.
    pub mint_key: u64,
    /// Free-text note attached by the creator.
    pub memo: String,
    /// Sale price in the smallest currency unit.
    pub price: u64,
    /// Derivation bump of the escrow authority, persisted because it is
    /// needed again to authorize release at close time.
    pub bump: u8,
}

/// An open competitive-bid listing.  `refund_receiver == creator` encodes
/// "no real bid yet"; otherwise the vault's currency balance equals `price`
/// and `refund_receiver` is owed that amount if outbid.
pub struct Auction {
    /// Account that listed the asset.
    pub creator: u64,
    /// Identifier of the escrowed asset.
    pub mint_key: u64,
    /// Account entitled to reclaim the currently escrowed bid.
    pub refund_receiver: u64,
    /// Free-text note attached by the creator.
    pub memo: String,
    /// Current leading price; the reserve price while no bid stands.
    pub price: u64,
    /// Unix time at which bidding opened.
    pub start_time: u128,
    /// Unix time after which the auction can only be resolved.  Fixed at
    /// creation, never mutated.
    pub end_time: u128,
    /// Derivation bump of the escrow authority.
    pub bump: u8,
}

impl Order {
    /// Bytes of persistent storage an order record occupies: a fixed header
    /// plus the exact byte length of the memo.
    pub fn space(memo: &str) -> (r: usize)
        requires
            memo.spec_bytes().len() + 85 <= usize::MAX,
        ensures
            r == 85 + memo.spec_bytes().len(),
    {
        8 + 32 + 32 + 4 + memo.len() + 8 + 1
    }
}

impl Auction {
    /// Bytes of persistent storage an auction record occupies: a fixed
    /// header plus the exact byte length of the memo.
    pub fn space(memo: &str) -> (r: usize)
        requires
            memo.spec_bytes().len() + 149 <= usize::MAX,
        ensures
            r == 149 + memo.spec_bytes().len(),
    {
        8 + 32 + 32 + 32 + 4 + memo.len() + 8 + 16 + 16 + 1
    }
}

} // verus!

use vstd::prelude::*;

verus! {

/// Failures of asset registration (the minting edge).
#[derive(Clone, Copy, Debug, PartialEq, Eq, Structural)]
pub enum MintError {
    /// The runtime refused to mint the asset (it already exists).
    MintFailed,
    /// The metadata record could not be created.
    MetadataCreateFailed,
    /// The royalty configuration exceeds the registration ceiling.
    RoyaltyExceeded,
}

/// Failures of the order and auction state machines.  One kind per failing
/// leg of a settlement sequence, so a caller can pinpoint which step broke.
#[derive(Clone, Copy, Debug, PartialEq, Eq, Structural)]
pub enum MarketError {
    /// Asset transfer from the creator into escrow failed.
    TokenTransferFailed,
    /// Asset transfer from escrow back to the creator failed.
    TokenTransferFailed2,
    /// Asset transfer from escrow to the buyer or winner failed.
    TokenTransferFailed3,
    /// A plain currency transfer leg failed (payer balance too small).
    SolTransferFailed,
    /// Closing the escrow vault failed.
    TokenCloseFailed,
    /// The buyer's balance is below the order's price, or a bid is below
    /// the auction's current leading price.
    InsufficientMoney,
    /// The auction's end time has passed.
    AuctionEnded,
    /// The requested end time is already in the past.
    InvalidEndTime,
    /// The auction's end time has not been reached yet.
    AuctionNotEnded,
    /// The refund bookkeeping would become ambiguous: the creator cannot
    /// bid on their own auction, because `refund_receiver == creator`
    /// encodes the no-bid state.
    InvalidReceiver,
    /// No open listing exists for the given asset.
    ListingNotFound,
    /// The caller is not the identity the operation is reserved to.
    Unauthorized,
    /// The asset already has an open listing.
    AlreadyListed,
}

} // verus!

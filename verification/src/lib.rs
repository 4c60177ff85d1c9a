//! Custody and settlement engine for trading a unique digital asset against
//! payment, in two modes: a fixed-price sale (order) and a time-boxed
//! competitive-bid sale (auction).  The escrow state machine, the fee
//! arithmetic and the refund-chain bookkeeping are verified; the chain
//! runtime that hosts the records is modelled as a ledger of plain accounts.

pub mod authority;
pub mod conservation;
pub mod errors;
pub mod fees;
pub mod laws;
pub mod ledger;
pub mod market;
pub mod records;

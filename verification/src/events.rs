//! Events handed back to the caller on a successful operation, for off-ledger
//! observers. They carry only plaintext, non-sensitive fields.

use vstd::prelude::*;

use crate::auction::AuctionType;
use crate::record::Principal;

verus! {

/// An auction record was created and its encrypted aggregate initialized.
#[derive(Clone, Copy, PartialEq, Eq, Structural, Debug)]
pub struct AuctionCreatedEvent {
    pub auction: Principal,
    pub authority: Principal,
    pub auction_type: AuctionType,
    pub min_bid: u64,
    pub end_time: i64,
}

/// A sealed bid was folded into an auction's encrypted aggregate.
#[derive(Clone, Copy, PartialEq, Eq, Structural, Debug)]
pub struct BidPlacedEvent {
    pub auction: Principal,
    pub bid_count: u8,
}

/// An auction stopped accepting bids.
#[derive(Clone, Copy, PartialEq, Eq, Structural, Debug)]
pub struct AuctionClosedEvent {
    pub auction: Principal,
    pub bid_count: u8,
}

/// An auction was resolved: exactly the winner's identity and the payment
/// amount are revealed; no other bid ever is.
#[derive(Clone, Copy, PartialEq, Eq, Structural, Debug)]
pub struct AuctionResolvedEvent {
    pub auction: Principal,
    pub winner: Principal,
    pub payment_amount: u64,
    pub auction_type: AuctionType,
}

/// A conviction-market record was created and its encrypted state
/// initialized.
#[derive(Clone, Copy, PartialEq, Eq, Structural, Debug)]
pub struct MarketCreatedEvent {
    pub market: Principal,
    pub creator: Principal,
    pub index: u64,
}

} // verus!

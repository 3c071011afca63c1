//! The sealed-bid auction state machine. An auction moves strictly forward
//! through `Open -> Closed -> Resolved`: bids are accepted only while it is
//! open, only its authority may close it or ask for the winner, and winner
//! determination runs only from the closed state, with the circuit matching
//! the auction's type. Bid contents live solely in the encrypted aggregate;
//! resolution reveals exactly the winner's identity and the payment amount.

use vstd::prelude::*;

use crate::encoder::{Argument, ArgumentEncoder};
use crate::errors::ErrorCode;
use crate::events::{AuctionClosedEvent, AuctionCreatedEvent, AuctionResolvedEvent, BidPlacedEvent};
use crate::queue::{spec_enqueued, spec_pending_request_is, CircuitId, ComputationQueue};
use crate::record::{all_zero_state, commit_accepted, CipherBundle, CipherWord, Principal};

verus! {

/// Which price the winner pays.
#[derive(Clone, Copy, PartialEq, Eq, Structural, Debug)]
pub enum AuctionType {
    /// The winner pays their own (highest) bid.
    FirstPrice,
    /// The winner pays the second-highest bid.
    Vickrey,
}

/// The ledger-visible phase of an auction; it only ever moves forward.
#[derive(Clone, Copy, PartialEq, Eq, Structural, Debug)]
pub enum AuctionStatus {
    Open,
    Closed,
    Resolved,
}

/// Byte offset of the encrypted aggregate inside an auction record: the
/// fixed header (discriminator, bump, authority, type, status, minimum bid,
/// end time, bid count) and the version nonce come first.
pub const AUCTION_STATE_OFFSET: u32 = 8 + 1 + 32 + 1 + 1 + 8 + 8 + 1 + 16;

/// Byte length of the encrypted aggregate: five 32-byte words.
pub const AUCTION_STATE_SIZE: u32 = 32 * 5;

/// A sealed-bid auction record: plaintext gating fields plus the encrypted
/// aggregate of all bids, versioned by `state_nonce`.
#[derive(Debug)]
pub struct Auction {
    /// The principal allowed to close and resolve the auction.
    pub authority: Principal,
    pub auction_type: AuctionType,
    pub status: AuctionStatus,
    /// The advertised minimum bid; enforcement is the circuit's concern.
    pub min_bid: u64,
    /// The advertised end of bidding, as a ledger timestamp.
    pub end_time: i64,
    /// How many bids were folded into the aggregate.
    pub bid_count: u8,
    /// Version nonce: advanced by every committed cluster result.
    pub state_nonce: u128,
    /// The encrypted bid aggregate; overwritten only wholesale.
    pub encrypted_state: [CipherWord; 5],
}

/// Whether a bid may be placed: only while the auction is open.
pub open spec fn spec_place_bid_admissible(a: Auction) -> bool {
    a.status is Open
}

/// Whether `caller` may ask for the winner under circuit type `ty`: only the
/// authority, only once the auction is closed, and only with the circuit
/// matching the auction's type.
pub open spec fn spec_determine_winner_admissible(
    a: Auction,
    ty: AuctionType,
    caller: Principal,
) -> bool {
    a.authority == caller && a.status is Closed && a.auction_type == ty
}

/// The request payload that initializes an auction's encrypted aggregate:
/// just the fresh record's nonce.
pub open spec fn spec_init_auction_args(nonce: u128) -> Seq<Argument> {
    seq![Argument::PlaintextU128(nonce)]
}

/// The request payload for placing a bid: the bidder's result-addressing
/// key, the input nonce, the encrypted bidder identity (two halves) and
/// amount, then the auction record's nonce and a by-reference slice of its
/// aggregate.
pub open spec fn spec_place_bid_args(
    bidder_pubkey: [u8; 32],
    nonce: u128,
    encrypted_bidder_lo: CipherWord,
    encrypted_bidder_hi: CipherWord,
    encrypted_amount: CipherWord,
    state_nonce: u128,
    auction_address: Principal,
) -> Seq<Argument> {
    seq![
        Argument::X25519Pubkey(bidder_pubkey),
        Argument::PlaintextU128(nonce),
        Argument::EncryptedU128(encrypted_bidder_lo),
        Argument::EncryptedU128(encrypted_bidder_hi),
        Argument::EncryptedU64(encrypted_amount),
        Argument::PlaintextU128(state_nonce),
        Argument::RecordRef {
            address: auction_address,
            offset: AUCTION_STATE_OFFSET,
            length: AUCTION_STATE_SIZE,
        },
    ]
}

/// The request payload for winner determination: the auction record's nonce
/// and a by-reference slice of its aggregate.
pub open spec fn spec_determine_winner_args(
    state_nonce: u128,
    auction_address: Principal,
) -> Seq<Argument> {
    seq![
        Argument::PlaintextU128(state_nonce),
        Argument::RecordRef {
            address: auction_address,
            offset: AUCTION_STATE_OFFSET,
            length: AUCTION_STATE_SIZE,
        },
    ]
}

/// Creates an auction record, open for bids, and queues the request that
/// initializes its encrypted aggregate. Fails only when the caller-chosen
/// handle is still pending.
pub fn create_auction(
    queue: &mut ComputationQueue,
    auction_address: Principal,
    authority: Principal,
    auction_type: AuctionType,
    min_bid: u64,
    end_time: i64,
    nonce: u128,
    handle: u64,
) -> (r: Result<Auction, ErrorCode>)
    requires
        old(queue).wf(),
    ensures
        final(queue).wf(),
        match r {
            Ok(a) => {
                &&& !old(queue).handle_pending(handle)
                &&& spec_enqueued(
                    *old(queue),
                    *final(queue),
                    handle,
                    CircuitId::InitAuctionState,
                    spec_init_auction_args(nonce),
                    seq![auction_address],
                    1,
                )
                &&& a.authority == authority
                &&& a.auction_type == auction_type
                &&& a.status is Open
                &&& a.min_bid == min_bid
                &&& a.end_time == end_time
                &&& a.bid_count == 0
                &&& a.state_nonce == nonce
                &&& all_zero_state(a.encrypted_state@)
            },
            Err(e) => {
                &&& final(queue).pending@ == old(queue).pending@
                &&& (e == ErrorCode::ClusterNotSet || e == ErrorCode::DuplicateRequestHandle)
                &&& (e == ErrorCode::ClusterNotSet <==> old(queue).cluster is None)
                &&& (e == ErrorCode::DuplicateRequestHandle <==> old(queue).cluster is Some && old(
                    queue,
                ).handle_pending(handle))
            },
        },
{
    let args = ArgumentEncoder::new().plaintext_u128(nonce).build();
    let mut callback_records: Vec<Principal> = Vec::new();
    callback_records.push(auction_address);
    let ghost q0 = *queue;
    queue.enqueue(handle, CircuitId::InitAuctionState, args, callback_records, 1)?;
    proof {
        assert(queue.pending@.subrange(0, q0.pending@.len() as int) =~= q0.pending@);
        assert(spec_init_auction_args(nonce) =~= seq![Argument::PlaintextU128(nonce)]);
    }
    Ok(
        Auction {
            authority,
            auction_type,
            status: AuctionStatus::Open,
            min_bid,
            end_time,
            bid_count: 0,
            state_nonce: nonce,
            encrypted_state: [[0u8; 32]; 5],
        },
    )
}

/// Commits the cluster result that initialized an auction's aggregate:
/// verifies the callback against the pending request and its record binding,
/// rejects a stale nonce, then overwrites ciphertexts and nonce wholesale.
pub fn init_auction_state_callback(
    queue: &mut ComputationQueue,
    auction: &mut Auction,
    auction_address: Principal,
    handle: u64,
    attested: bool,
    bundle: &CipherBundle<5>,
) -> (r: Result<AuctionCreatedEvent, ErrorCode>)
    requires
        old(queue).wf(),
    ensures
        final(queue).wf(),
        !final(queue).handle_pending(handle),
        old(queue).handle_pending(handle) ==> final(queue).pending@ == old(
            queue,
        ).pending@.remove(old(queue).spec_index_of_handle(handle)),
        !old(queue).handle_pending(handle) ==> final(queue).pending@ == old(queue).pending@,
        match r {
            Ok(ev) => {
                &&& attested
                &&& spec_pending_request_is(
                    *old(queue),
                    handle,
                    CircuitId::InitAuctionState,
                    seq![auction_address],
                )
                &&& commit_accepted(old(auction).state_nonce, bundle.nonce)
                &&& *final(auction) == (Auction {
                    state_nonce: bundle.nonce,
                    encrypted_state: bundle.ciphertexts,
                    ..*old(auction)
                })
                &&& ev == (AuctionCreatedEvent {
                    auction: auction_address,
                    authority: old(auction).authority,
                    auction_type: old(auction).auction_type,
                    min_bid: old(auction).min_bid,
                    end_time: old(auction).end_time,
                })
            },
            Err(e) => {
                &&& e == ErrorCode::AbortedComputation
                &&& *final(auction) == *old(auction)
                &&& !(attested && spec_pending_request_is(
                    *old(queue),
                    handle,
                    CircuitId::InitAuctionState,
                    seq![auction_address],
                ) && commit_accepted(old(auction).state_nonce, bundle.nonce))
            },
        },
{
    let req = match queue.accept_callback(handle, CircuitId::InitAuctionState, attested) {
        Ok(req) => req,
        Err(e) => {
            return Err(e);
        },
    };
    if !(req.callback_records.len() == 1 && req.callback_records[0] == auction_address) {
        return Err(ErrorCode::AbortedComputation);
    }
    proof {
        assert(req.callback_records@ =~= seq![auction_address]);
    }
    if !(bundle.nonce > auction.state_nonce) {
        return Err(ErrorCode::AbortedComputation);
    }
    auction.state_nonce = bundle.nonce;
    auction.encrypted_state = bundle.ciphertexts;
    Ok(
        AuctionCreatedEvent {
            auction: auction_address,
            authority: auction.authority,
            auction_type: auction.auction_type,
            min_bid: auction.min_bid,
            end_time: auction.end_time,
        },
    )
}

/// Queues a sealed bid against an open auction. The bidder's identity and
/// amount travel only as ciphertext; the auction's current nonce and a
/// by-reference slice of its aggregate let the cluster fold the bid in.
/// Fails with `AuctionNotOpen` once the auction is closed or resolved, and
/// with `DuplicateRequestHandle` when the handle is still pending.
pub fn place_bid(
    queue: &mut ComputationQueue,
    auction: &Auction,
    auction_address: Principal,
    handle: u64,
    encrypted_bidder_lo: CipherWord,
    encrypted_bidder_hi: CipherWord,
    encrypted_amount: CipherWord,
    bidder_pubkey: [u8; 32],
    nonce: u128,
) -> (r: Result<(), ErrorCode>)
    requires
        old(queue).wf(),
    ensures
        final(queue).wf(),
        match r {
            Ok(()) => {
                &&& spec_place_bid_admissible(*auction)
                &&& !old(queue).handle_pending(handle)
                &&& spec_enqueued(
                    *old(queue),
                    *final(queue),
                    handle,
                    CircuitId::PlaceBid,
                    spec_place_bid_args(
                        bidder_pubkey,
                        nonce,
                        encrypted_bidder_lo,
                        encrypted_bidder_hi,
                        encrypted_amount,
                        auction.state_nonce,
                        auction_address,
                    ),
                    seq![auction_address],
                    1,
                )
            },
            Err(e) => {
                &&& final(queue).pending@ == old(queue).pending@
                &&& (e == ErrorCode::AuctionNotOpen || e == ErrorCode::ClusterNotSet || e
                    == ErrorCode::DuplicateRequestHandle)
                &&& (e == ErrorCode::AuctionNotOpen <==> !spec_place_bid_admissible(*auction))
                &&& (e == ErrorCode::ClusterNotSet <==> spec_place_bid_admissible(*auction) && old(
                    queue,
                ).cluster is None)
                &&& (e == ErrorCode::DuplicateRequestHandle <==> spec_place_bid_admissible(
                    *auction,
                ) && old(queue).cluster is Some && old(queue).handle_pending(handle))
            },
        },
{
    if !(auction.status == AuctionStatus::Open) {
        return Err(ErrorCode::AuctionNotOpen);
    }
    let args = ArgumentEncoder::new()
        .x25519_pubkey(bidder_pubkey)
        .plaintext_u128(nonce)
        .encrypted_u128(encrypted_bidder_lo)
        .encrypted_u128(encrypted_bidder_hi)
        .encrypted_u64(encrypted_amount)
        .plaintext_u128(auction.state_nonce)
        .account(auction_address, AUCTION_STATE_OFFSET, AUCTION_STATE_SIZE)
        .build();
    proof {
        assert(args@ =~= spec_place_bid_args(
            bidder_pubkey,
            nonce,
            encrypted_bidder_lo,
            encrypted_bidder_hi,
            encrypted_amount,
            auction.state_nonce,
            auction_address,
        ));
    }
    let mut callback_records: Vec<Principal> = Vec::new();
    callback_records.push(auction_address);
    let ghost q0 = *queue;
    queue.enqueue(handle, CircuitId::PlaceBid, args, callback_records, 1)?;
    proof {
        assert(queue.pending@.subrange(0, q0.pending@.len() as int) =~= q0.pending@);
    }
    Ok(())
}

/// Commits the cluster result of a bid: verifies the callback, rejects a
/// stale nonce, overwrites the aggregate wholesale, and counts the bid.
/// Nothing about the bid itself is revealed.
pub fn place_bid_callback(
    queue: &mut ComputationQueue,
    auction: &mut Auction,
    auction_address: Principal,
    handle: u64,
    attested: bool,
    bundle: &CipherBundle<5>,
) -> (r: Result<BidPlacedEvent, ErrorCode>)
    requires
        old(queue).wf(),
    ensures
        final(queue).wf(),
        !final(queue).handle_pending(handle),
        old(queue).handle_pending(handle) ==> final(queue).pending@ == old(
            queue,
        ).pending@.remove(old(queue).spec_index_of_handle(handle)),
        !old(queue).handle_pending(handle) ==> final(queue).pending@ == old(queue).pending@,
        match r {
            Ok(ev) => {
                &&& attested
                &&& spec_pending_request_is(
                    *old(queue),
                    handle,
                    CircuitId::PlaceBid,
                    seq![auction_address],
                )
                &&& commit_accepted(old(auction).state_nonce, bundle.nonce)
                &&& old(auction).bid_count < u8::MAX
                &&& *final(auction) == (Auction {
                    state_nonce: bundle.nonce,
                    encrypted_state: bundle.ciphertexts,
                    bid_count: (old(auction).bid_count + 1) as u8,
                    ..*old(auction)
                })
                &&& ev == (BidPlacedEvent {
                    auction: auction_address,
                    bid_count: (old(auction).bid_count + 1) as u8,
                })
            },
            Err(e) => {
                &&& *final(auction) == *old(auction)
                &&& (e == ErrorCode::AbortedComputation || e == ErrorCode::Overflow)
                &&& (e == ErrorCode::AbortedComputation <==> !(attested && spec_pending_request_is(
                    *old(queue),
                    handle,
                    CircuitId::PlaceBid,
                    seq![auction_address],
                ) && commit_accepted(old(auction).state_nonce, bundle.nonce)))
                &&& (e == ErrorCode::Overflow <==> attested && spec_pending_request_is(
                    *old(queue),
                    handle,
                    CircuitId::PlaceBid,
                    seq![auction_address],
                ) && commit_accepted(old(auction).state_nonce, bundle.nonce) && old(
                    auction,
                ).bid_count == u8::MAX)
            },
        },
{
    let req = match queue.accept_callback(handle, CircuitId::PlaceBid, attested) {
        Ok(req) => req,
        Err(e) => {
            return Err(e);
        },
    };
    if !(req.callback_records.len() == 1 && req.callback_records[0] == auction_address) {
        return Err(ErrorCode::AbortedComputation);
    }
    proof {
        assert(req.callback_records@ =~= seq![auction_address]);
    }
    if !(bundle.nonce > auction.state_nonce) {
        return Err(ErrorCode::AbortedComputation);
    }
    if auction.bid_count == u8::MAX {
        return Err(ErrorCode::Overflow);
    }
    auction.state_nonce = bundle.nonce;
    auction.encrypted_state = bundle.ciphertexts;
    auction.bid_count = auction.bid_count + 1;
    Ok(BidPlacedEvent { auction: auction_address, bid_count: auction.bid_count })
}

/// Closes an open auction, ending bidding. Only the authority may close,
/// and only from the open state; the status then moves forward to `Closed`.
pub fn close_auction(auction: &mut Auction, auction_address: Principal, caller: Principal) -> (r:
    Result<AuctionClosedEvent, ErrorCode>)
    ensures
        match r {
            Ok(ev) => {
                &&& old(auction).authority == caller
                &&& old(auction).status is Open
                &&& *final(auction) == (Auction { status: AuctionStatus::Closed, ..*old(auction) })
                &&& ev == (AuctionClosedEvent {
                    auction: auction_address,
                    bid_count: old(auction).bid_count,
                })
            },
            Err(e) => {
                &&& *final(auction) == *old(auction)
                &&& (e == ErrorCode::Unauthorized || e == ErrorCode::AuctionNotOpen)
                &&& (e == ErrorCode::Unauthorized <==> old(auction).authority != caller)
                &&& (e == ErrorCode::AuctionNotOpen <==> old(auction).authority == caller && !(old(
                    auction,
                ).status is Open))
            },
        },
{
    if !(auction.authority == caller) {
        return Err(ErrorCode::Unauthorized);
    }
    if !(auction.status == AuctionStatus::Open) {
        return Err(ErrorCode::AuctionNotOpen);
    }
    auction.status = AuctionStatus::Closed;
    Ok(AuctionClosedEvent { auction: auction_address, bid_count: auction.bid_count })
}

/// Queues first-price winner determination for a closed first-price auction.
/// Only the authority may ask; the auction must be exactly closed and of the
/// matching type.
pub fn determine_winner_first_price(
    queue: &mut ComputationQueue,
    auction: &Auction,
    auction_address: Principal,
    caller: Principal,
    handle: u64,
) -> (r: Result<(), ErrorCode>)
    requires
        old(queue).wf(),
    ensures
        final(queue).wf(),
        match r {
            Ok(()) => {
                &&& spec_determine_winner_admissible(*auction, AuctionType::FirstPrice, caller)
                &&& !old(queue).handle_pending(handle)
                &&& spec_enqueued(
                    *old(queue),
                    *final(queue),
                    handle,
                    CircuitId::DetermineWinnerFirstPrice,
                    spec_determine_winner_args(auction.state_nonce, auction_address),
                    seq![auction_address],
                    1,
                )
            },
            Err(e) => {
                &&& final(queue).pending@ == old(queue).pending@
                &&& (e == ErrorCode::Unauthorized || e == ErrorCode::AuctionNotClosed || e
                    == ErrorCode::WrongAuctionType || e == ErrorCode::ClusterNotSet || e
                    == ErrorCode::DuplicateRequestHandle)
                &&& (e == ErrorCode::Unauthorized <==> auction.authority != caller)
                &&& (e == ErrorCode::AuctionNotClosed <==> auction.authority == caller && !(
                auction.status is Closed))
                &&& (e == ErrorCode::WrongAuctionType <==> auction.authority == caller
                    && auction.status is Closed && !(auction.auction_type is FirstPrice))
                &&& (e == ErrorCode::ClusterNotSet <==> spec_determine_winner_admissible(
                    *auction,
                    AuctionType::FirstPrice,
                    caller,
                ) && old(queue).cluster is None)
                &&& (e == ErrorCode::DuplicateRequestHandle <==> spec_determine_winner_admissible(
                    *auction,
                    AuctionType::FirstPrice,
                    caller,
                ) && old(queue).cluster is Some && old(queue).handle_pending(handle))
            },
        },
{
    determine_winner_request(
        queue,
        auction,
        auction_address,
        caller,
        handle,
        AuctionType::FirstPrice,
        CircuitId::DetermineWinnerFirstPrice,
    )
}

/// Queues Vickrey winner determination for a closed Vickrey auction. Only
/// the authority may ask; the auction must be exactly closed and of the
/// matching type.
pub fn determine_winner_vickrey(
    queue: &mut ComputationQueue,
    auction: &Auction,
    auction_address: Principal,
    caller: Principal,
    handle: u64,
) -> (r: Result<(), ErrorCode>)
    requires
        old(queue).wf(),
    ensures
        final(queue).wf(),
        match r {
            Ok(()) => {
                &&& spec_determine_winner_admissible(*auction, AuctionType::Vickrey, caller)
                &&& !old(queue).handle_pending(handle)
                &&& spec_enqueued(
                    *old(queue),
                    *final(queue),
                    handle,
                    CircuitId::DetermineWinnerVickrey,
                    spec_determine_winner_args(auction.state_nonce, auction_address),
                    seq![auction_address],
                    1,
                )
            },
            Err(e) => {
                &&& final(queue).pending@ == old(queue).pending@
                &&& (e == ErrorCode::Unauthorized || e == ErrorCode::AuctionNotClosed || e
                    == ErrorCode::WrongAuctionType || e == ErrorCode::ClusterNotSet || e
                    == ErrorCode::DuplicateRequestHandle)
                &&& (e == ErrorCode::Unauthorized <==> auction.authority != caller)
                &&& (e == ErrorCode::AuctionNotClosed <==> auction.authority == caller && !(
                auction.status is Closed))
                &&& (e == ErrorCode::WrongAuctionType <==> auction.authority == caller
                    && auction.status is Closed && !(auction.auction_type is Vickrey))
                &&& (e == ErrorCode::ClusterNotSet <==> spec_determine_winner_admissible(
                    *auction,
                    AuctionType::Vickrey,
                    caller,
                ) && old(queue).cluster is None)
                &&& (e == ErrorCode::DuplicateRequestHandle <==> spec_determine_winner_admissible(
                    *auction,
                    AuctionType::Vickrey,
                    caller,
                ) && old(queue).cluster is Some && old(queue).handle_pending(handle))
            },
        },
{
    determine_winner_request(
        queue,
        auction,
        auction_address,
        caller,
        handle,
        AuctionType::Vickrey,
        CircuitId::DetermineWinnerVickrey,
    )
}

/// The shared gating and enqueue step of winner determination.
fn determine_winner_request(
    queue: &mut ComputationQueue,
    auction: &Auction,
    auction_address: Principal,
    caller: Principal,
    handle: u64,
    ty: AuctionType,
    circuit: CircuitId,
) -> (r: Result<(), ErrorCode>)
    requires
        old(queue).wf(),
    ensures
        final(queue).wf(),
        match r {
            Ok(()) => {
                &&& spec_determine_winner_admissible(*auction, ty, caller)
                &&& !old(queue).handle_pending(handle)
                &&& spec_enqueued(
                    *old(queue),
                    *final(queue),
                    handle,
                    circuit,
                    spec_determine_winner_args(auction.state_nonce, auction_address),
                    seq![auction_address],
                    1,
                )
            },
            Err(e) => {
                &&& final(queue).pending@ == old(queue).pending@
                &&& (e == ErrorCode::Unauthorized || e == ErrorCode::AuctionNotClosed || e
                    == ErrorCode::WrongAuctionType || e == ErrorCode::ClusterNotSet || e
                    == ErrorCode::DuplicateRequestHandle)
                &&& (e == ErrorCode::Unauthorized <==> auction.authority != caller)
                &&& (e == ErrorCode::AuctionNotClosed <==> auction.authority == caller && !(
                auction.status is Closed))
                &&& (e == ErrorCode::WrongAuctionType <==> auction.authority == caller
                    && auction.status is Closed && auction.auction_type != ty)
                &&& (e == ErrorCode::ClusterNotSet <==> spec_determine_winner_admissible(
                    *auction,
                    ty,
                    caller,
                ) && old(queue).cluster is None)
                &&& (e == ErrorCode::DuplicateRequestHandle <==> spec_determine_winner_admissible(
                    *auction,
                    ty,
                    caller,
                ) && old(queue).cluster is Some && old(queue).handle_pending(handle))
            },
        },
{
    if !(auction.authority == caller) {
        return Err(ErrorCode::Unauthorized);
    }
    if !(auction.status == AuctionStatus::Closed) {
        return Err(ErrorCode::AuctionNotClosed);
    }
    if !(auction.auction_type == ty) {
        return Err(ErrorCode::WrongAuctionType);
    }
    let args = ArgumentEncoder::new()
        .plaintext_u128(auction.state_nonce)
        .account(auction_address, AUCTION_STATE_OFFSET, AUCTION_STATE_SIZE)
        .build();
    proof {
        assert(args@ =~= spec_determine_winner_args(auction.state_nonce, auction_address));
    }
    let mut callback_records: Vec<Principal> = Vec::new();
    callback_records.push(auction_address);
    let ghost q0 = *queue;
    queue.enqueue(handle, circuit, args, callback_records, 1)?;
    proof {
        assert(queue.pending@.subrange(0, q0.pending@.len() as int) =~= q0.pending@);
    }
    Ok(())
}

/// Commits a first-price winner result: verifies the callback, moves the
/// auction forward to `Resolved`, and reveals exactly the winner's identity
/// and the payment (the winning bid itself).
pub fn determine_winner_first_price_callback(
    queue: &mut ComputationQueue,
    auction: &mut Auction,
    auction_address: Principal,
    handle: u64,
    attested: bool,
    winner_lo: u128,
    winner_hi: u128,
    payment_amount: u64,
) -> (r: Result<AuctionResolvedEvent, ErrorCode>)
    requires
        old(queue).wf(),
    ensures
        final(queue).wf(),
        !final(queue).handle_pending(handle),
        old(queue).handle_pending(handle) ==> final(queue).pending@ == old(
            queue,
        ).pending@.remove(old(queue).spec_index_of_handle(handle)),
        !old(queue).handle_pending(handle) ==> final(queue).pending@ == old(queue).pending@,
        match r {
            Ok(ev) => {
                &&& attested
                &&& spec_pending_request_is(
                    *old(queue),
                    handle,
                    CircuitId::DetermineWinnerFirstPrice,
                    seq![auction_address],
                )
                &&& old(auction).status is Closed
                &&& old(auction).auction_type is FirstPrice
                &&& *final(auction) == (Auction { status: AuctionStatus::Resolved, ..*old(auction) })
                &&& ev == (AuctionResolvedEvent {
                    auction: auction_address,
                    winner: (Principal { lo: winner_lo, hi: winner_hi }),
                    payment_amount,
                    auction_type: old(auction).auction_type,
                })
            },
            Err(e) => {
                &&& *final(auction) == *old(auction)
                &&& (e == ErrorCode::AbortedComputation || e == ErrorCode::AuctionNotClosed || e
                    == ErrorCode::WrongAuctionType)
                &&& (e == ErrorCode::AbortedComputation <==> !(attested && spec_pending_request_is(
                    *old(queue),
                    handle,
                    CircuitId::DetermineWinnerFirstPrice,
                    seq![auction_address],
                )))
                &&& (e == ErrorCode::AuctionNotClosed <==> attested && spec_pending_request_is(
                    *old(queue),
                    handle,
                    CircuitId::DetermineWinnerFirstPrice,
                    seq![auction_address],
                ) && !(old(auction).status is Closed))
                &&& (e == ErrorCode::WrongAuctionType <==> attested && spec_pending_request_is(
                    *old(queue),
                    handle,
                    CircuitId::DetermineWinnerFirstPrice,
                    seq![auction_address],
                ) && old(auction).status is Closed && !(old(auction).auction_type is FirstPrice))
            },
        },
{
    winner_callback(
        queue,
        auction,
        auction_address,
        handle,
        attested,
        winner_lo,
        winner_hi,
        payment_amount,
        AuctionType::FirstPrice,
        CircuitId::DetermineWinnerFirstPrice,
    )
}

/// Commits a Vickrey winner result: verifies the callback, moves the auction
/// forward to `Resolved`, and reveals exactly the winner's identity and the
/// payment (the second-highest bid).
pub fn determine_winner_vickrey_callback(
    queue: &mut ComputationQueue,
    auction: &mut Auction,
    auction_address: Principal,
    handle: u64,
    attested: bool,
    winner_lo: u128,
    winner_hi: u128,
    payment_amount: u64,
) -> (r: Result<AuctionResolvedEvent, ErrorCode>)
    requires
        old(queue).wf(),
    ensures
        final(queue).wf(),
        !final(queue).handle_pending(handle),
        old(queue).handle_pending(handle) ==> final(queue).pending@ == old(
            queue,
        ).pending@.remove(old(queue).spec_index_of_handle(handle)),
        !old(queue).handle_pending(handle) ==> final(queue).pending@ == old(queue).pending@,
        match r {
            Ok(ev) => {
                &&& attested
                &&& spec_pending_request_is(
                    *old(queue),
                    handle,
                    CircuitId::DetermineWinnerVickrey,
                    seq![auction_address],
                )
                &&& old(auction).status is Closed
                &&& old(auction).auction_type is Vickrey
                &&& *final(auction) == (Auction { status: AuctionStatus::Resolved, ..*old(auction) })
                &&& ev == (AuctionResolvedEvent {
                    auction: auction_address,
                    winner: (Principal { lo: winner_lo, hi: winner_hi }),
                    payment_amount,
                    auction_type: old(auction).auction_type,
                })
            },
            Err(e) => {
                &&& *final(auction) == *old(auction)
                &&& (e == ErrorCode::AbortedComputation || e == ErrorCode::AuctionNotClosed || e
                    == ErrorCode::WrongAuctionType)
                &&& (e == ErrorCode::AbortedComputation <==> !(attested && spec_pending_request_is(
                    *old(queue),
                    handle,
                    CircuitId::DetermineWinnerVickrey,
                    seq![auction_address],
                )))
                &&& (e == ErrorCode::AuctionNotClosed <==> attested && spec_pending_request_is(
                    *old(queue),
                    handle,
                    CircuitId::DetermineWinnerVickrey,
                    seq![auction_address],
                ) && !(old(auction).status is Closed))
                &&& (e == ErrorCode::WrongAuctionType <==> attested && spec_pending_request_is(
                    *old(queue),
                    handle,
                    CircuitId::DetermineWinnerVickrey,
                    seq![auction_address],
                ) && old(auction).status is Closed && !(old(auction).auction_type is Vickrey))
            },
        },
{
    winner_callback(
        queue,
        auction,
        auction_address,
        handle,
        attested,
        winner_lo,
        winner_hi,
        payment_amount,
        AuctionType::Vickrey,
        CircuitId::DetermineWinnerVickrey,
    )
}

/// The shared verification and commit step of a winner callback.
fn winner_callback(
    queue: &mut ComputationQueue,
    auction: &mut Auction,
    auction_address: Principal,
    handle: u64,
    attested: bool,
    winner_lo: u128,
    winner_hi: u128,
    payment_amount: u64,
    ty: AuctionType,
    circuit: CircuitId,
) -> (r: Result<AuctionResolvedEvent, ErrorCode>)
    requires
        old(queue).wf(),
    ensures
        final(queue).wf(),
        !final(queue).handle_pending(handle),
        old(queue).handle_pending(handle) ==> final(queue).pending@ == old(
            queue,
        ).pending@.remove(old(queue).spec_index_of_handle(handle)),
        !old(queue).handle_pending(handle) ==> final(queue).pending@ == old(queue).pending@,
        match r {
            Ok(ev) => {
                &&& attested
                &&& spec_pending_request_is(*old(queue), handle, circuit, seq![auction_address])
                &&& old(auction).status is Closed
                &&& old(auction).auction_type == ty
                &&& *final(auction) == (Auction { status: AuctionStatus::Resolved, ..*old(auction) })
                &&& ev == (AuctionResolvedEvent {
                    auction: auction_address,
                    winner: (Principal { lo: winner_lo, hi: winner_hi }),
                    payment_amount,
                    auction_type: old(auction).auction_type,
                })
            },
            Err(e) => {
                &&& *final(auction) == *old(auction)
                &&& (e == ErrorCode::AbortedComputation || e == ErrorCode::AuctionNotClosed || e
                    == ErrorCode::WrongAuctionType)
                &&& (e == ErrorCode::AbortedComputation <==> !(attested && spec_pending_request_is(
                    *old(queue),
                    handle,
                    circuit,
                    seq![auction_address],
                )))
                &&& (e == ErrorCode::AuctionNotClosed <==> attested && spec_pending_request_is(
                    *old(queue),
                    handle,
                    circuit,
                    seq![auction_address],
                ) && !(old(auction).status is Closed))
                &&& (e == ErrorCode::WrongAuctionType <==> attested && spec_pending_request_is(
                    *old(queue),
                    handle,
                    circuit,
                    seq![auction_address],
                ) && old(auction).status is Closed && old(auction).auction_type != ty)
            },
        },
{
    let req = match queue.accept_callback(handle, circuit, attested) {
        Ok(req) => req,
        Err(e) => {
            return Err(e);
        },
    };
    if !(req.callback_records.len() == 1 && req.callback_records[0] == auction_address) {
        return Err(ErrorCode::AbortedComputation);
    }
    proof {
        assert(req.callback_records@ =~= seq![auction_address]);
    }
    if !(auction.status == AuctionStatus::Closed) {
        return Err(ErrorCode::AuctionNotClosed);
    }
    if !(auction.auction_type == ty) {
        return Err(ErrorCode::WrongAuctionType);
    }
    auction.status = AuctionStatus::Resolved;
    Ok(
        AuctionResolvedEvent {
            auction: auction_address,
            winner: Principal { lo: winner_lo, hi: winner_hi },
            payment_amount,
            auction_type: auction.auction_type,
        },
    )
}

/// Auction phases move only forward: once an auction is closed or resolved a
/// bid is never admissible again, and Vickrey winner determination is
/// admissible only when the status is exactly `Closed`, the type is
/// `Vickrey`, and the caller is the authority.
pub proof fn lemma_auction_monotonic_phases(a: Auction, caller: Principal)
    ensures
        a.status is Closed || a.status is Resolved ==> !spec_place_bid_admissible(a),
        spec_determine_winner_admissible(a, AuctionType::Vickrey, caller) <==> a.status is Closed
            && a.auction_type is Vickrey && a.authority == caller,
{
}

} // verus!

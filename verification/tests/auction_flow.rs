//! The sealed-bid auction protocol end to end: requests, callbacks, phase
//! gating, replay rejection, and the Vickrey scenario.

use confidential_markets::auction::{
    close_auction, create_auction, determine_winner_first_price, determine_winner_vickrey,
    determine_winner_vickrey_callback, init_auction_state_callback, place_bid, place_bid_callback,
    Auction, AuctionStatus, AuctionType,
};
use confidential_markets::circuits::{
    determine_winner_vickrey_circuit, init_auction_state, place_bid_update,
};
use confidential_markets::errors::ErrorCode;
use confidential_markets::queue::ComputationQueue;
use confidential_markets::record::{CipherBundle, Principal};

fn principal(n: u128) -> Principal {
    Principal { lo: n, hi: 0 }
}

fn queue_with_cluster() -> ComputationQueue {
    let mut queue = ComputationQueue::new();
    queue.set_cluster(principal(1000));
    queue
}

fn bundle5(nonce: u128, fill: u8) -> CipherBundle<5> {
    CipherBundle { nonce, ciphertexts: [[fill; 32]; 5] }
}

#[test]
fn create_auction_initializes_record_and_enqueues() {
    let mut queue = queue_with_cluster();
    let auction = create_auction(
        &mut queue,
        principal(10),
        principal(1),
        AuctionType::Vickrey,
        5,
        900,
        1,
        7,
    )
    .unwrap();
    assert_eq!(auction.authority, principal(1));
    assert_eq!(auction.status, AuctionStatus::Open);
    assert_eq!(auction.bid_count, 0);
    assert_eq!(auction.state_nonce, 1);
    assert_eq!(auction.encrypted_state, [[0u8; 32]; 5]);
    assert_eq!(queue.pending.len(), 1);
    assert_eq!(queue.pending[0].handle, 7);
}

#[test]
fn reusing_a_pending_handle_fails() {
    let mut queue = queue_with_cluster();
    create_auction(
        &mut queue,
        principal(10),
        principal(1),
        AuctionType::Vickrey,
        5,
        900,
        1,
        7,
    )
    .unwrap();
    let second = create_auction(
        &mut queue,
        principal(11),
        principal(2),
        AuctionType::FirstPrice,
        5,
        900,
        1,
        7,
    );
    assert_eq!(second.unwrap_err(), ErrorCode::DuplicateRequestHandle);
}

#[test]
fn enqueue_without_cluster_fails() {
    let mut queue = ComputationQueue::new();
    let result = create_auction(
        &mut queue,
        principal(10),
        principal(1),
        AuctionType::Vickrey,
        5,
        900,
        1,
        7,
    );
    assert_eq!(result.unwrap_err(), ErrorCode::ClusterNotSet);
}

#[test]
fn callback_commits_fresh_bundle_and_rejects_replay() {
    let mut queue = queue_with_cluster();
    let addr = principal(10);
    let mut auction = create_auction(
        &mut queue,
        addr,
        principal(1),
        AuctionType::Vickrey,
        5,
        900,
        1,
        7,
    )
    .unwrap();

    let bundle = bundle5(2, 0xAB);
    let event = init_auction_state_callback(&mut queue, &mut auction, addr, 7, true, &bundle)
        .unwrap();
    assert_eq!(event.auction, addr);
    assert_eq!(auction.state_nonce, 2);
    assert_eq!(auction.encrypted_state, [[0xAB; 32]; 5]);

    // The handle is no longer pending: replaying the same callback fails and
    // mutates nothing.
    let replay = init_auction_state_callback(&mut queue, &mut auction, addr, 7, true, &bundle);
    assert_eq!(replay.unwrap_err(), ErrorCode::AbortedComputation);
    assert_eq!(auction.state_nonce, 2);
}

#[test]
fn callback_rejects_stale_nonce() {
    let mut queue = queue_with_cluster();
    let addr = principal(10);
    let mut auction = create_auction(
        &mut queue,
        addr,
        principal(1),
        AuctionType::Vickrey,
        5,
        900,
        9,
        7,
    )
    .unwrap();
    // The record already sits at nonce 9; a bundle carrying nonce 9 is stale.
    let stale = bundle5(9, 0xAB);
    let result = init_auction_state_callback(&mut queue, &mut auction, addr, 7, true, &stale);
    assert_eq!(result.unwrap_err(), ErrorCode::AbortedComputation);
    assert_eq!(auction.state_nonce, 9);
    assert_eq!(auction.encrypted_state, [[0u8; 32]; 5]);
}

#[test]
fn callback_rejects_unattested_result() {
    let mut queue = queue_with_cluster();
    let addr = principal(10);
    let mut auction = create_auction(
        &mut queue,
        addr,
        principal(1),
        AuctionType::Vickrey,
        5,
        900,
        1,
        7,
    )
    .unwrap();
    let bundle = bundle5(2, 0xAB);
    let result = init_auction_state_callback(&mut queue, &mut auction, addr, 7, false, &bundle);
    assert_eq!(result.unwrap_err(), ErrorCode::AbortedComputation);
    assert_eq!(auction.state_nonce, 1);
}

#[test]
fn bids_fail_once_auction_is_closed_or_resolved() {
    let mut queue = queue_with_cluster();
    let addr = principal(10);
    let authority = principal(1);
    let mut auction = create_auction(
        &mut queue,
        addr,
        authority,
        AuctionType::Vickrey,
        5,
        900,
        1,
        7,
    )
    .unwrap();

    close_auction(&mut auction, addr, authority).unwrap();
    assert_eq!(auction.status, AuctionStatus::Closed);
    let closed_bid = place_bid(
        &mut queue,
        &auction,
        addr,
        8,
        [0; 32],
        [0; 32],
        [0; 32],
        [0; 32],
        50,
    );
    assert_eq!(closed_bid.unwrap_err(), ErrorCode::AuctionNotOpen);

    auction.status = AuctionStatus::Resolved;
    let resolved_bid = place_bid(
        &mut queue,
        &auction,
        addr,
        8,
        [0; 32],
        [0; 32],
        [0; 32],
        [0; 32],
        50,
    );
    assert_eq!(resolved_bid.unwrap_err(), ErrorCode::AuctionNotOpen);
}

#[test]
fn close_requires_authority_and_open_status() {
    let mut auction = Auction {
        authority: principal(1),
        auction_type: AuctionType::Vickrey,
        status: AuctionStatus::Open,
        min_bid: 5,
        end_time: 900,
        bid_count: 0,
        state_nonce: 1,
        encrypted_state: [[0; 32]; 5],
    };
    let stranger = close_auction(&mut auction, principal(10), principal(2));
    assert_eq!(stranger.unwrap_err(), ErrorCode::Unauthorized);
    assert_eq!(auction.status, AuctionStatus::Open);

    close_auction(&mut auction, principal(10), principal(1)).unwrap();
    let again = close_auction(&mut auction, principal(10), principal(1));
    assert_eq!(again.unwrap_err(), ErrorCode::AuctionNotOpen);
}

#[test]
fn winner_determination_gates_status_type_and_authority() {
    let mut queue = queue_with_cluster();
    let addr = principal(10);
    let authority = principal(1);
    let mut auction = create_auction(
        &mut queue,
        addr,
        authority,
        AuctionType::Vickrey,
        5,
        900,
        1,
        7,
    )
    .unwrap();

    // Open: not closed yet.
    let open = determine_winner_vickrey(&mut queue, &auction, addr, authority, 8);
    assert_eq!(open.unwrap_err(), ErrorCode::AuctionNotClosed);

    close_auction(&mut auction, addr, authority).unwrap();

    // Wrong circuit for the auction's type.
    let wrong_type = determine_winner_first_price(&mut queue, &auction, addr, authority, 8);
    assert_eq!(wrong_type.unwrap_err(), ErrorCode::WrongAuctionType);

    // Wrong caller.
    let stranger = determine_winner_vickrey(&mut queue, &auction, addr, principal(2), 8);
    assert_eq!(stranger.unwrap_err(), ErrorCode::Unauthorized);

    // Matching everything succeeds.
    determine_winner_vickrey(&mut queue, &auction, addr, authority, 8).unwrap();
}

#[test]
fn vickrey_auction_reveals_winner_and_second_price_only() {
    // Ledger side.
    let mut queue = queue_with_cluster();
    let addr = principal(10);
    let authority = principal(1);
    let mut auction = create_auction(
        &mut queue,
        addr,
        authority,
        AuctionType::Vickrey,
        1,
        900,
        1,
        1,
    )
    .unwrap();

    // Cluster side, simulated: the plaintext aggregate behind the ciphertext.
    let mut aggregate = init_auction_state();
    let result = init_auction_state_callback(
        &mut queue,
        &mut auction,
        addr,
        1,
        true,
        &bundle5(2, 1),
    );
    result.unwrap();

    let bidders = [principal(21), principal(22), principal(23)];
    let amounts = [50u64, 80, 65];
    for i in 0..3 {
        let handle = 10 + i as u64;
        place_bid(
            &mut queue,
            &auction,
            addr,
            handle,
            [0; 32],
            [0; 32],
            [0; 32],
            [0; 32],
            100 + i as u128,
        )
        .unwrap();
        aggregate = place_bid_update(&aggregate, bidders[i], amounts[i]);
        let bundle = bundle5(auction.state_nonce + 1, 0x40 + i as u8);
        place_bid_callback(&mut queue, &mut auction, addr, handle, true, &bundle).unwrap();
    }
    assert_eq!(auction.bid_count, 3);

    close_auction(&mut auction, addr, authority).unwrap();
    determine_winner_vickrey(&mut queue, &auction, addr, authority, 99).unwrap();

    let (winner, payment) = determine_winner_vickrey_circuit(&aggregate);
    let event = determine_winner_vickrey_callback(
        &mut queue,
        &mut auction,
        addr,
        99,
        true,
        winner.lo,
        winner.hi,
        payment,
    )
    .unwrap();

    assert_eq!(auction.status, AuctionStatus::Resolved);
    assert_eq!(event.winner, principal(22));
    assert_eq!(event.payment_amount, 65);
    assert_eq!(event.auction_type, AuctionType::Vickrey);

    // Resolution is terminal: a second winner request fails.
    let again = determine_winner_vickrey(&mut queue, &auction, addr, authority, 100);
    assert_eq!(again.unwrap_err(), ErrorCode::AuctionNotClosed);
}

#[test]
fn bid_counter_rejects_overflow() {
    let mut queue = queue_with_cluster();
    let addr = principal(10);
    let mut auction = Auction {
        authority: principal(1),
        auction_type: AuctionType::Vickrey,
        status: AuctionStatus::Open,
        min_bid: 1,
        end_time: 900,
        bid_count: u8::MAX,
        state_nonce: 1,
        encrypted_state: [[0; 32]; 5],
    };
    place_bid(
        &mut queue,
        &auction,
        addr,
        5,
        [0; 32],
        [0; 32],
        [0; 32],
        [0; 32],
        50,
    )
    .unwrap();
    let bundle = bundle5(2, 3);
    let result = place_bid_callback(&mut queue, &mut auction, addr, 5, true, &bundle);
    assert_eq!(result.unwrap_err(), ErrorCode::Overflow);
    assert_eq!(auction.bid_count, u8::MAX);
    assert_eq!(auction.state_nonce, 1);
}

#[test]
fn nonces_increase_across_successful_commits() {
    let mut queue = queue_with_cluster();
    let addr = principal(10);
    let mut auction = create_auction(
        &mut queue,
        addr,
        principal(1),
        AuctionType::FirstPrice,
        1,
        900,
        3,
        1,
    )
    .unwrap();
    let mut observed = vec![auction.state_nonce];
    init_auction_state_callback(&mut queue, &mut auction, addr, 1, true, &bundle5(5, 1)).unwrap();
    observed.push(auction.state_nonce);
    place_bid(&mut queue, &auction, addr, 2, [0; 32], [0; 32], [0; 32], [0; 32], 50).unwrap();
    place_bid_callback(&mut queue, &mut auction, addr, 2, true, &bundle5(9, 2)).unwrap();
    observed.push(auction.state_nonce);
    for window in observed.windows(2) {
        assert!(window[0] < window[1]);
    }
}

//! The conviction-market protocol: phases, option bounds, lazy share
//! activation, and the share-purchase callback's all-or-nothing commit.

use confidential_markets::circuits::{
    buy_conviction_market_shares, BuySharesInput, UserMarketSharePosition, UserVoteTokenBalance,
};
use confidential_markets::errors::ErrorCode;
use confidential_markets::market::{
    add_market_option, buy_conviction_market_shares_callback, buy_market_shares, create_market,
    init_market_state_callback, market_phase, open_market, ConvictionMarketShare, MarketPhase,
    ShareLifecycle, VoteToken,
};
use confidential_markets::queue::ComputationQueue;
use confidential_markets::record::{CipherBundle, Principal};

fn principal(n: u128) -> Principal {
    Principal { lo: n, hi: 0 }
}

fn queue_with_cluster() -> ComputationQueue {
    let mut queue = ComputationQueue::new();
    queue.set_cluster(principal(1000));
    queue
}

fn fresh_share() -> ConvictionMarketShare {
    ConvictionMarketShare {
        lifecycle: ShareLifecycle::Uninitialized,
        owner: principal(0),
        market: principal(0),
        state_nonce: 0,
        encrypted_state: [[0; 32]; 2],
    }
}

fn vote_token(owner: Principal, nonce: u128) -> VoteToken {
    VoteToken { owner, state_nonce: nonce, encrypted_state: [[0; 32]; 1] }
}

#[test]
fn market_creation_and_init_callback() {
    let mut queue = queue_with_cluster();
    let addr = principal(30);
    let mut market = create_market(
        &mut queue,
        addr,
        principal(3),
        0,
        3,
        1000,
        500,
        principal(77),
        1,
        40,
    )
    .unwrap();
    assert_eq!(market.total_options, 0);
    assert_eq!(market.max_options, 3);
    assert!(market.open_timestamp.is_none());
    assert_eq!(market.encrypted_state, [[0u8; 32]; 10]);

    let bundle = CipherBundle::<10> { nonce: 2, ciphertexts: [[9; 32]; 10] };
    let event =
        init_market_state_callback(&mut queue, &mut market, addr, 40, true, &bundle).unwrap();
    assert_eq!(event.market, addr);
    assert_eq!(event.creator, principal(3));
    assert_eq!(market.state_nonce, 2);
    assert_eq!(market.encrypted_state, [[9; 32]; 10]);
}

#[test]
fn a_fourth_option_fails_and_three_stand() {
    let mut queue = queue_with_cluster();
    let mut market = create_market(
        &mut queue,
        principal(30),
        principal(3),
        0,
        3,
        1000,
        500,
        principal(77),
        1,
        40,
    )
    .unwrap();
    for name in ["aye", "nay", "abstain"] {
        add_market_option(&mut market, principal(3), name.to_string()).unwrap();
    }
    assert_eq!(market.total_options, 3);
    let fourth = add_market_option(&mut market, principal(3), "late".to_string());
    assert_eq!(fourth.unwrap_err(), ErrorCode::MaxOptionsReached);
    assert_eq!(market.total_options, 3);
}

#[test]
fn options_cannot_be_added_after_opening() {
    let mut queue = queue_with_cluster();
    let mut market = create_market(
        &mut queue,
        principal(30),
        principal(3),
        0,
        3,
        1000,
        500,
        principal(77),
        1,
        40,
    )
    .unwrap();
    open_market(&mut market, 100).unwrap();
    let result = add_market_option(&mut market, principal(3), "late".to_string());
    assert_eq!(result.unwrap_err(), ErrorCode::MarketNotOpen);

    // Opening is one-shot.
    let reopen = open_market(&mut market, 200);
    assert_eq!(reopen.unwrap_err(), ErrorCode::MarketNotOpen);
    assert_eq!(market.open_timestamp, Some(100));
}

#[test]
fn phases_follow_the_timestamps() {
    let mut queue = queue_with_cluster();
    let mut market = create_market(
        &mut queue,
        principal(30),
        principal(3),
        0,
        3,
        1000,
        500,
        principal(77),
        1,
        40,
    )
    .unwrap();
    assert_eq!(market_phase(&market, 0), MarketPhase::Funding);
    open_market(&mut market, 100).unwrap();
    assert_eq!(market_phase(&market, 50), MarketPhase::Funding);
    assert_eq!(market_phase(&market, 100), MarketPhase::Staking);
    assert_eq!(market_phase(&market, 1099), MarketPhase::Staking);
    assert_eq!(market_phase(&market, 1100), MarketPhase::Reveal);
    assert_eq!(market_phase(&market, 1599), MarketPhase::Reveal);
    assert_eq!(market_phase(&market, 1600), MarketPhase::Resolved);
}

#[test]
fn buying_requires_an_opened_market() {
    let mut queue = queue_with_cluster();
    let market = create_market(
        &mut queue,
        principal(30),
        principal(3),
        0,
        3,
        1000,
        500,
        principal(77),
        1,
        40,
    )
    .unwrap();
    let user_vta = vote_token(principal(5), 4);
    let market_vta = vote_token(principal(30), 6);
    let mut share = fresh_share();
    let result = buy_market_shares(
        &mut queue,
        &market,
        principal(30),
        &user_vta,
        principal(51),
        &market_vta,
        principal(52),
        &mut share,
        principal(53),
        principal(5),
        41,
        [1; 32],
        [2; 32],
        [3; 32],
        70,
    );
    assert_eq!(result.unwrap_err(), ErrorCode::MarketNotOpen);
    assert_eq!(share.lifecycle, ShareLifecycle::Uninitialized);
}

#[test]
fn buying_activates_a_fresh_share_record() {
    let mut queue = queue_with_cluster();
    let mut market = create_market(
        &mut queue,
        principal(30),
        principal(3),
        0,
        3,
        1000,
        500,
        principal(77),
        1,
        40,
    )
    .unwrap();
    open_market(&mut market, 100).unwrap();
    let user_vta = vote_token(principal(5), 4);
    let market_vta = vote_token(principal(30), 6);
    let mut share = fresh_share();
    buy_market_shares(
        &mut queue,
        &market,
        principal(30),
        &user_vta,
        principal(51),
        &market_vta,
        principal(52),
        &mut share,
        principal(53),
        principal(5),
        41,
        [1; 32],
        [2; 32],
        [3; 32],
        70,
    )
    .unwrap();
    assert_eq!(share.lifecycle, ShareLifecycle::Active);
    assert_eq!(share.owner, principal(5));
    assert_eq!(share.market, principal(30));
    assert_eq!(share.state_nonce, 0);
    let pending = queue.pending.last().unwrap();
    assert_eq!(pending.handle, 41);
    assert_eq!(pending.callback_records, vec![principal(51), principal(52), principal(53)]);
}

#[test]
fn purchase_callback_commits_all_three_records() {
    let mut queue = queue_with_cluster();
    let mut market = create_market(
        &mut queue,
        principal(30),
        principal(3),
        0,
        3,
        1000,
        500,
        principal(77),
        1,
        40,
    )
    .unwrap();
    open_market(&mut market, 100).unwrap();
    let mut user_vta = vote_token(principal(5), 4);
    let mut market_vta = vote_token(principal(30), 6);
    let mut share = fresh_share();
    buy_market_shares(
        &mut queue,
        &market,
        principal(30),
        &user_vta,
        principal(51),
        &market_vta,
        principal(52),
        &mut share,
        principal(53),
        principal(5),
        41,
        [1; 32],
        [2; 32],
        [3; 32],
        70,
    )
    .unwrap();

    // Cluster side, simulated on the plaintext behind the ciphertexts.
    let input = BuySharesInput { amount: 40, selected_option: 2 };
    let user_balance = UserVoteTokenBalance { amount: 100 };
    let pool_balance = UserVoteTokenBalance { amount: 10 };
    let position = UserMarketSharePosition { share_amount: 0, selected_option: 0 };
    let (has_error, _, _, _) =
        buy_conviction_market_shares(input, &user_balance, &pool_balance, &position, 3);
    assert!(!has_error);

    let user_bundle = CipherBundle::<1> { nonce: 5, ciphertexts: [[0x11; 32]; 1] };
    let market_bundle = CipherBundle::<1> { nonce: 7, ciphertexts: [[0x22; 32]; 1] };
    let share_bundle = CipherBundle::<2> { nonce: 1, ciphertexts: [[0x33; 32]; 2] };
    buy_conviction_market_shares_callback(
        &mut queue,
        &mut user_vta,
        principal(51),
        &mut market_vta,
        principal(52),
        &mut share,
        principal(53),
        41,
        true,
        has_error,
        &user_bundle,
        &market_bundle,
        &share_bundle,
    )
    .unwrap();
    assert_eq!(user_vta.state_nonce, 5);
    assert_eq!(user_vta.encrypted_state, [[0x11; 32]; 1]);
    assert_eq!(market_vta.state_nonce, 7);
    assert_eq!(market_vta.encrypted_state, [[0x22; 32]; 1]);
    assert_eq!(share.state_nonce, 1);
    assert_eq!(share.encrypted_state, [[0x33; 32]; 2]);
}

#[test]
fn purchase_callback_with_error_flag_still_commits_reencrypted_state() {
    let mut queue = queue_with_cluster();
    let mut market = create_market(
        &mut queue,
        principal(30),
        principal(3),
        0,
        3,
        1000,
        500,
        principal(77),
        1,
        40,
    )
    .unwrap();
    open_market(&mut market, 100).unwrap();
    let mut user_vta = vote_token(principal(5), 4);
    let mut market_vta = vote_token(principal(30), 6);
    let mut share = fresh_share();
    buy_market_shares(
        &mut queue,
        &market,
        principal(30),
        &user_vta,
        principal(51),
        &market_vta,
        principal(52),
        &mut share,
        principal(53),
        principal(5),
        41,
        [1; 32],
        [2; 32],
        [3; 32],
        70,
    )
    .unwrap();

    let user_bundle = CipherBundle::<1> { nonce: 5, ciphertexts: [[0x11; 32]; 1] };
    let market_bundle = CipherBundle::<1> { nonce: 7, ciphertexts: [[0x22; 32]; 1] };
    let share_bundle = CipherBundle::<2> { nonce: 1, ciphertexts: [[0x33; 32]; 2] };
    let result = buy_conviction_market_shares_callback(
        &mut queue,
        &mut user_vta,
        principal(51),
        &mut market_vta,
        principal(52),
        &mut share,
        principal(53),
        41,
        true,
        true,
        &user_bundle,
        &market_bundle,
        &share_bundle,
    );
    // The business effect did not happen, but the re-encrypted unchanged-value
    // bundles are committed all the same: ciphertext change and business
    // effect are independent signals, so a failed purchase looks like a
    // successful one on the ledger.
    assert_eq!(result.unwrap_err(), ErrorCode::SharePurchaseFailed);
    assert_eq!(user_vta.state_nonce, 5);
    assert_eq!(user_vta.encrypted_state, [[0x11; 32]; 1]);
    assert_eq!(market_vta.state_nonce, 7);
    assert_eq!(market_vta.encrypted_state, [[0x22; 32]; 1]);
    assert_eq!(share.state_nonce, 1);
    assert_eq!(share.encrypted_state, [[0x33; 32]; 2]);

    // A replay of the same callback is no longer pending and changes nothing.
    let replay = buy_conviction_market_shares_callback(
        &mut queue,
        &mut user_vta,
        principal(51),
        &mut market_vta,
        principal(52),
        &mut share,
        principal(53),
        41,
        true,
        true,
        &user_bundle,
        &market_bundle,
        &share_bundle,
    );
    assert_eq!(replay.unwrap_err(), ErrorCode::AbortedComputation);
    assert_eq!(user_vta.state_nonce, 5);
}

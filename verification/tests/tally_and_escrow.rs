//! The permissionless tally aggregator and the vote-token escrow sidecar.

use confidential_markets::circuits::{calculate_vote_token_balance, UserVoteTokenBalance};
use confidential_markets::errors::ErrorCode;
use confidential_markets::queue::ComputationQueue;
use confidential_markets::record::{CipherBundle, Principal};
use confidential_markets::tally::{increment_option_tally, OptionTally, ShareAccount};
use confidential_markets::vote_token::{
    claim_pending_deposit, init_ephemeral_vote_token_account, init_vote_token_account,
    request_vote_token_balance_update, vote_token_balance_callback,
};

fn principal(n: u128) -> Principal {
    Principal { lo: n, hi: 0 }
}

fn queue_with_cluster() -> ComputationQueue {
    let mut queue = ComputationQueue::new();
    queue.set_cluster(principal(1000));
    queue
}

fn revealed_share(amount: Option<u64>) -> ShareAccount {
    ShareAccount {
        owner: principal(5),
        market: principal(30),
        revealed_amount: amount,
        revealed_in_time: true,
        total_incremented: false,
    }
}

#[test]
fn tally_counts_a_revealed_amount_exactly_once() {
    let mut share = revealed_share(Some(40));
    let mut tally = OptionTally { total_shares_bought: 5 };
    increment_option_tally(&mut share, &mut tally).unwrap();
    assert_eq!(tally.total_shares_bought, 45);
    assert!(share.total_incremented);

    let second = increment_option_tally(&mut share, &mut tally);
    assert_eq!(second.unwrap_err(), ErrorCode::TallyAlreadyIncremented);
    assert_eq!(tally.total_shares_bought, 45);
}

#[test]
fn tally_rejects_late_unrevealed_and_overflowing_records() {
    let mut tally = OptionTally { total_shares_bought: 5 };

    let mut late = revealed_share(Some(40));
    late.revealed_in_time = false;
    assert_eq!(
        increment_option_tally(&mut late, &mut tally).unwrap_err(),
        ErrorCode::RevealedTooLate
    );

    let mut unrevealed = revealed_share(None);
    assert_eq!(
        increment_option_tally(&mut unrevealed, &mut tally).unwrap_err(),
        ErrorCode::NotRevealed
    );

    let mut big = revealed_share(Some(u64::MAX));
    assert_eq!(
        increment_option_tally(&mut big, &mut tally).unwrap_err(),
        ErrorCode::Overflow
    );
    assert_eq!(tally.total_shares_bought, 5);
    assert!(!big.total_incremented);
}

#[test]
fn regular_and_ephemeral_accounts_initialize() {
    let owner = principal(5);
    let mint = principal(77);
    let regular = init_vote_token_account(owner, mint, [4; 32]);
    assert_eq!(regular.index, 0);
    assert_eq!(regular.pending_deposit, 0);
    assert!(!regular.locked);

    let ephemeral = init_ephemeral_vote_token_account(&regular, owner, mint, 9).unwrap();
    assert_eq!(ephemeral.index, 9);
    assert_eq!(ephemeral.user_pubkey, [4; 32]);

    let stranger = init_ephemeral_vote_token_account(&regular, principal(6), mint, 9);
    assert_eq!(stranger.unwrap_err(), ErrorCode::Unauthorized);

    let from_ephemeral = init_ephemeral_vote_token_account(&ephemeral, owner, mint, 10);
    assert_eq!(from_ephemeral.unwrap_err(), ErrorCode::Unauthorized);
}

#[test]
fn claiming_gates_owner_and_mint() {
    let owner = principal(5);
    let mint = principal(77);
    let mut vta = init_vote_token_account(owner, mint, [4; 32]);
    vta.pending_deposit = 30;
    vta.locked = true;

    assert_eq!(
        claim_pending_deposit(&mut vta, principal(6), mint).unwrap_err(),
        ErrorCode::Unauthorized
    );
    assert_eq!(
        claim_pending_deposit(&mut vta, owner, principal(78)).unwrap_err(),
        ErrorCode::InvalidMint
    );
    assert_eq!(vta.pending_deposit, 30);

    let claimed = claim_pending_deposit(&mut vta, owner, mint).unwrap();
    assert_eq!(claimed, Some(30));
    assert_eq!(vta.pending_deposit, 0);
    assert!(!vta.locked);

    // Nothing pending: a successful no-op.
    let nothing = claim_pending_deposit(&mut vta, owner, mint).unwrap();
    assert_eq!(nothing, None);
}

#[test]
fn successful_sell_credits_pending_collateral() {
    let mut queue = queue_with_cluster();
    let owner = principal(5);
    let addr = principal(50);
    let mut vta = init_vote_token_account(owner, principal(77), [4; 32]);

    request_vote_token_balance_update(&mut queue, &vta, addr, 30, true, 60).unwrap();

    // Cluster side, simulated: balance 100, sell 30.
    let balance = UserVoteTokenBalance { amount: 100 };
    let (error, sold, committed) = calculate_vote_token_balance(&balance, 30, true);
    assert_eq!(committed.amount, 70);

    let bundle = CipherBundle::<1> { nonce: 8, ciphertexts: [[0x5A; 32]; 1] };
    let revealed =
        vote_token_balance_callback(&mut queue, &mut vta, addr, 60, true, error, sold, &bundle)
            .unwrap();
    assert_eq!(revealed, (false, 30));
    assert_eq!(vta.pending_deposit, 30);
    assert_eq!(vta.state_nonce, 8);
    assert_eq!(vta.encrypted_state, [[0x5A; 32]; 1]);
}

#[test]
fn failed_sell_recommits_ciphertext_but_releases_nothing() {
    let mut queue = queue_with_cluster();
    let owner = principal(5);
    let addr = principal(50);
    let mut vta = init_vote_token_account(owner, principal(77), [4; 32]);

    request_vote_token_balance_update(&mut queue, &vta, addr, 150, true, 61).unwrap();

    // Cluster side, simulated: balance 100, sell 150 — insufficient.
    let balance = UserVoteTokenBalance { amount: 100 };
    let (error, sold, committed) = calculate_vote_token_balance(&balance, 150, true);
    assert!(error);
    assert_eq!(sold, 150);
    assert_eq!(committed.amount, 100);

    let bundle = CipherBundle::<1> { nonce: 8, ciphertexts: [[0x6B; 32]; 1] };
    let revealed =
        vote_token_balance_callback(&mut queue, &mut vta, addr, 61, true, error, sold, &bundle)
            .unwrap();
    // The ciphertext was still rewritten (re-encrypting the unchanged value),
    // so failure is not distinguishable from success by the record's shape;
    // only the revealed flag withholds the collateral release.
    assert_eq!(revealed, (true, 150));
    assert_eq!(vta.pending_deposit, 0);
    assert_eq!(vta.state_nonce, 8);
    assert_eq!(vta.encrypted_state, [[0x6B; 32]; 1]);
}

#[test]
fn balance_callback_rejects_wrong_circuit_handle() {
    let mut queue = queue_with_cluster();
    let addr = principal(50);
    let mut vta = init_vote_token_account(principal(5), principal(77), [4; 32]);
    request_vote_token_balance_update(&mut queue, &vta, addr, 30, true, 60).unwrap();

    let bundle = CipherBundle::<1> { nonce: 8, ciphertexts: [[0; 32]; 1] };
    // A callback for a handle that was never enqueued.
    let wrong =
        vote_token_balance_callback(&mut queue, &mut vta, addr, 99, true, false, 0, &bundle);
    assert_eq!(wrong.unwrap_err(), ErrorCode::AbortedComputation);
    assert_eq!(vta.state_nonce, 0);
}

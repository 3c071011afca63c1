//! The conviction-market state machine and the confidential share-purchase
//! protocol. A market's phases — funding, staking, reveal, resolved — are
//! computed from its timestamps, never stored, and move only forward; the
//! one-shot `open_timestamp` set is the single stored transition. Options may
//! be added only before the market opens and only up to its bound. A share
//! purchase moves encrypted vote tokens from the buyer to the market pool
//! through the asynchronous protocol; its callback commits all three affected
//! records wholesale whether or not the combined error flag is set — a failed
//! purchase re-encrypts the unchanged values, so the flag alone, never the
//! ciphertext, tells failure from success.

use vstd::prelude::*;

use crate::encoder::{Argument, ArgumentEncoder};
use crate::errors::ErrorCode;
use crate::events::MarketCreatedEvent;
use crate::queue::{spec_enqueued, spec_pending_request_is, CircuitId, ComputationQueue};
use crate::record::{all_zero_state, commit_accepted, CipherBundle, CipherWord, Principal};

verus! {

/// Byte offset of the encrypted state inside a vote-token or share record:
/// it follows the record discriminator.
pub const RECORD_STATE_OFFSET: u32 = 8;

/// Byte length of a vote-token record's encrypted state: one 32-byte word.
pub const VOTE_TOKEN_STATE_SIZE: u32 = 32 * 1;

/// Byte length of a share record's encrypted state: two 32-byte words.
pub const SHARE_STATE_SIZE: u32 = 32 * 2;

/// A conviction market: plaintext gating fields plus the encrypted option
/// tallies, versioned by `state_nonce`.
#[derive(Debug)]
pub struct ConvictionMarket {
    pub creator: Principal,
    /// Disambiguates several markets by one creator.
    pub index: u64,
    /// How many options were added so far.
    pub total_options: u16,
    /// The bound on options, fixed at creation.
    pub max_options: u16,
    /// Set once when the market is funded and opened; never cleared.
    pub open_timestamp: Option<u64>,
    /// Seconds of staking, counted from `open_timestamp`.
    pub time_to_stake: u64,
    /// Seconds of reveal, counted from the end of staking.
    pub time_to_reveal: u64,
    /// The terminal winning-option set; `None` until resolution.
    pub selected_option: Option<u16>,
    /// The reward paid out on resolution.
    pub reward_amount: u64,
    /// The mint the reward is denominated in.
    pub reward_token_mint: Principal,
    /// Version nonce: advanced by every committed cluster result.
    pub state_nonce: u128,
    /// The encrypted market state; overwritten only wholesale.
    pub encrypted_state: [CipherWord; 10],
}

/// The computed phase of a market at a given time.
#[derive(Clone, Copy, PartialEq, Eq, Structural, Debug)]
pub enum MarketPhase {
    /// Not yet opened: options may still be added.
    Funding,
    /// Open for staking: shares may be bought.
    Staking,
    /// Staking ended: positions may be revealed.
    Reveal,
    /// Reveal ended: the market is terminal.
    Resolved,
}

/// The phase of a market at time `now`, derived from its timestamps: staking
/// runs from `open_timestamp` for `time_to_stake` seconds, reveal for
/// `time_to_reveal` seconds after that, and the market is resolved once both
/// windows have passed. Before `open_timestamp` is set (or reached) the
/// market is still funding.
pub open spec fn spec_market_phase(m: ConvictionMarket, now: u64) -> MarketPhase {
    match m.open_timestamp {
        Option::None => MarketPhase::Funding,
        Option::Some(open) => {
            if now < open {
                MarketPhase::Funding
            } else if now < open + m.time_to_stake {
                MarketPhase::Staking
            } else if now < open + m.time_to_stake + m.time_to_reveal {
                MarketPhase::Reveal
            } else {
                MarketPhase::Resolved
            }
        },
    }
}

/// Computes the market's phase at time `now`.
pub fn market_phase(m: &ConvictionMarket, now: u64) -> (p: MarketPhase)
    ensures
        p == spec_market_phase(*m, now),
{
    match m.open_timestamp {
        None => MarketPhase::Funding,
        Some(open) => {
            if now < open {
                MarketPhase::Funding
            } else if (now as u128) < open as u128 + m.time_to_stake as u128 {
                MarketPhase::Staking
            } else if (now as u128) < open as u128 + m.time_to_stake as u128
                + m.time_to_reveal as u128 {
                MarketPhase::Reveal
            } else {
                MarketPhase::Resolved
            }
        },
    }
}

/// One named option of a conviction market.
#[derive(Debug)]
pub struct ConvictionMarketOption {
    pub creator: Principal,
    /// The option's display name.
    pub name: String,
    /// The revealed share total, once tallying has run.
    pub total_shares: Option<u64>,
}

/// A user's encrypted vote-token balance record.
#[derive(Debug)]
pub struct VoteToken {
    pub owner: Principal,
    /// Version nonce: advanced by every committed cluster result.
    pub state_nonce: u128,
    /// The encrypted token amount; overwritten only wholesale.
    pub encrypted_state: [CipherWord; 1],
}

/// Whether a share record has been claimed by an owner yet. A fresh record
/// starts uninitialized and is activated lazily, inside the transaction that
/// first stakes through it.
#[derive(Clone, Copy, PartialEq, Eq, Structural, Debug)]
pub enum ShareLifecycle {
    Uninitialized,
    Active,
}

/// A user's encrypted share position in one market.
#[derive(Debug)]
pub struct ConvictionMarketShare {
    pub lifecycle: ShareLifecycle,
    pub owner: Principal,
    pub market: Principal,
    /// Version nonce: advanced by every committed cluster result.
    pub state_nonce: u128,
    /// The encrypted position (amount and selected option); overwritten only
    /// wholesale.
    pub encrypted_state: [CipherWord; 2],
}

/// The request payload that initializes a market's encrypted state: just the
/// fresh record's nonce.
pub open spec fn spec_init_market_args(nonce: u128) -> Seq<Argument> {
    seq![Argument::PlaintextU128(nonce)]
}

/// The request payload for a share purchase: the buyer's result-addressing
/// key, the input nonce and the two encrypted inputs (amount, selected
/// option), then nonce and by-reference slice of each affected record —
/// buyer balance, market pool balance, share position — and finally the
/// plaintext option bound the circuit checks against.
pub open spec fn spec_buy_market_shares_args(
    user_pubkey: [u8; 32],
    input_nonce: u128,
    amount_ciphertext: CipherWord,
    selected_option_ciphertext: CipherWord,
    user_vta_nonce: u128,
    user_vta_address: Principal,
    market_vta_nonce: u128,
    market_vta_address: Principal,
    user_share_nonce: u128,
    user_share_address: Principal,
    total_options: u16,
) -> Seq<Argument> {
    seq![
        Argument::X25519Pubkey(user_pubkey),
        Argument::PlaintextU128(input_nonce),
        Argument::EncryptedU64(amount_ciphertext),
        Argument::EncryptedU16(selected_option_ciphertext),
        Argument::PlaintextU128(user_vta_nonce),
        Argument::RecordRef {
            address: user_vta_address,
            offset: RECORD_STATE_OFFSET,
            length: VOTE_TOKEN_STATE_SIZE,
        },
        Argument::PlaintextU128(market_vta_nonce),
        Argument::RecordRef {
            address: market_vta_address,
            offset: RECORD_STATE_OFFSET,
            length: VOTE_TOKEN_STATE_SIZE,
        },
        Argument::PlaintextU128(user_share_nonce),
        Argument::RecordRef {
            address: user_share_address,
            offset: RECORD_STATE_OFFSET,
            length: SHARE_STATE_SIZE,
        },
        Argument::PlaintextU16(total_options),
    ]
}

/// Creates a conviction-market record and queues the request that
/// initializes its encrypted state. The market starts with no options, not
/// yet opened. Fails only when the caller-chosen handle is still pending.
pub fn create_market(
    queue: &mut ComputationQueue,
    market_address: Principal,
    creator: Principal,
    market_index: u64,
    max_options: u16,
    time_to_stake: u64,
    time_to_reveal: u64,
    reward_token_mint: Principal,
    nonce: u128,
    handle: u64,
) -> (r: Result<ConvictionMarket, ErrorCode>)
    requires
        old(queue).wf(),
    ensures
        final(queue).wf(),
        match r {
            Ok(m) => {
                &&& !old(queue).handle_pending(handle)
                &&& spec_enqueued(
                    *old(queue),
                    *final(queue),
                    handle,
                    CircuitId::InitMarketState,
                    spec_init_market_args(nonce),
                    seq![market_address],
                    1,
                )
                &&& m.creator == creator
                &&& m.index == market_index
                &&& m.total_options == 0
                &&& m.max_options == max_options
                &&& m.open_timestamp is None
                &&& m.time_to_stake == time_to_stake
                &&& m.time_to_reveal == time_to_reveal
                &&& m.selected_option is None
                &&& m.reward_amount == 0
                &&& m.reward_token_mint == reward_token_mint
                &&& m.state_nonce == nonce
                &&& all_zero_state(m.encrypted_state@)
            },
            Err(e) => {
                &&& final(queue).pending@ == old(queue).pending@
                &&& (e == ErrorCode::ClusterNotSet || e == ErrorCode::DuplicateRequestHandle)
                &&& (e == ErrorCode::ClusterNotSet <==> old(queue).cluster is None)
                &&& (e == ErrorCode::DuplicateRequestHandle <==> old(queue).cluster is Some && old(
                    queue,
                ).handle_pending(handle))
            },
        },
{
    let args = ArgumentEncoder::new().plaintext_u128(nonce).build();
    proof {
        assert(args@ =~= spec_init_market_args(nonce));
    }
    let mut callback_records: Vec<Principal> = Vec::new();
    callback_records.push(market_address);
    let ghost q0 = *queue;
    queue.enqueue(handle, CircuitId::InitMarketState, args, callback_records, 1)?;
    proof {
        assert(queue.pending@.subrange(0, q0.pending@.len() as int) =~= q0.pending@);
    }
    Ok(
        ConvictionMarket {
            creator,
            index: market_index,
            total_options: 0,
            max_options,
            open_timestamp: None,
            time_to_stake,
            time_to_reveal,
            selected_option: None,
            reward_amount: 0,
            reward_token_mint,
            state_nonce: nonce,
            encrypted_state: [[0u8; 32]; 10],
        },
    )
}

/// Commits the cluster result that initialized a market's encrypted state:
/// verifies the callback against the pending request and its record binding,
/// rejects a stale nonce, then overwrites ciphertexts and nonce wholesale.
pub fn init_market_state_callback(
    queue: &mut ComputationQueue,
    market: &mut ConvictionMarket,
    market_address: Principal,
    handle: u64,
    attested: bool,
    bundle: &CipherBundle<10>,
) -> (r: Result<MarketCreatedEvent, ErrorCode>)
    requires
        old(queue).wf(),
    ensures
        final(queue).wf(),
        !final(queue).handle_pending(handle),
        old(queue).handle_pending(handle) ==> final(queue).pending@ == old(
            queue,
        ).pending@.remove(old(queue).spec_index_of_handle(handle)),
        !old(queue).handle_pending(handle) ==> final(queue).pending@ == old(queue).pending@,
        match r {
            Ok(ev) => {
                &&& attested
                &&& spec_pending_request_is(
                    *old(queue),
                    handle,
                    CircuitId::InitMarketState,
                    seq![market_address],
                )
                &&& commit_accepted(old(market).state_nonce, bundle.nonce)
                &&& *final(market) == (ConvictionMarket {
                    state_nonce: bundle.nonce,
                    encrypted_state: bundle.ciphertexts,
                    ..*old(market)
                })
                &&& ev == (MarketCreatedEvent {
                    market: market_address,
                    creator: old(market).creator,
                    index: old(market).index,
                })
            },
            Err(e) => {
                &&& e == ErrorCode::AbortedComputation
                &&& *final(market) == *old(market)
                &&& !(attested && spec_pending_request_is(
                    *old(queue),
                    handle,
                    CircuitId::InitMarketState,
                    seq![market_address],
                ) && commit_accepted(old(market).state_nonce, bundle.nonce))
            },
        },
{
    let req = match queue.accept_callback(handle, CircuitId::InitMarketState, attested) {
        Ok(req) => req,
        Err(e) => {
            return Err(e);
        },
    };
    if !(req.callback_records.len() == 1 && req.callback_records[0] == market_address) {
        return Err(ErrorCode::AbortedComputation);
    }
    proof {
        assert(req.callback_records@ =~= seq![market_address]);
    }
    if !(bundle.nonce > market.state_nonce) {
        return Err(ErrorCode::AbortedComputation);
    }
    market.state_nonce = bundle.nonce;
    market.encrypted_state = bundle.ciphertexts;
    Ok(
        MarketCreatedEvent {
            market: market_address,
            creator: market.creator,
            index: market.index,
        },
    )
}

/// Opens a funded market for staking by setting its one-shot
/// `open_timestamp`. A market is opened at most once and never reopened.
pub fn open_market(market: &mut ConvictionMarket, open_timestamp: u64) -> (r: Result<
    (),
    ErrorCode,
>)
    ensures
        match r {
            Ok(()) => {
                &&& old(market).open_timestamp is None
                &&& *final(market) == (ConvictionMarket {
                    open_timestamp: Some(open_timestamp),
                    ..*old(market)
                })
            },
            Err(e) => {
                &&& e == ErrorCode::MarketNotOpen
                &&& old(market).open_timestamp is Some
                &&& *final(market) == *old(market)
            },
        },
{
    if market.open_timestamp.is_some() {
        return Err(ErrorCode::MarketNotOpen);
    }
    market.open_timestamp = Some(open_timestamp);
    Ok(())
}

/// Adds a named option to a market. Legal only before the market has been
/// opened and only while the option bound has not been reached; on success
/// the option count grows by one.
pub fn add_market_option(market: &mut ConvictionMarket, creator: Principal, name: String) -> (r:
    Result<ConvictionMarketOption, ErrorCode>)
    ensures
        match r {
            Ok(opt) => {
                &&& old(market).open_timestamp is None
                &&& old(market).total_options < old(market).max_options
                &&& *final(market) == (ConvictionMarket {
                    total_options: (old(market).total_options + 1) as u16,
                    ..*old(market)
                })
                &&& opt.creator == creator
                &&& opt.name@ == name@
                &&& opt.total_shares is None
            },
            Err(e) => {
                &&& *final(market) == *old(market)
                &&& (e == ErrorCode::MarketNotOpen || e == ErrorCode::MaxOptionsReached)
                &&& (e == ErrorCode::MarketNotOpen <==> old(market).open_timestamp is Some)
                &&& (e == ErrorCode::MaxOptionsReached <==> old(market).open_timestamp is None
                    && old(market).total_options >= old(market).max_options)
            },
        },
{
    if market.open_timestamp.is_some() {
        return Err(ErrorCode::MarketNotOpen);
    }
    if market.total_options >= market.max_options {
        return Err(ErrorCode::MaxOptionsReached);
    }
    market.total_options = market.total_options + 1;
    Ok(ConvictionMarketOption { creator, name, total_shares: None })
}

/// The version nonce a share purchase hands the circuit for the share
/// record: zero for a record that is activated lazily in this transaction.
pub open spec fn spec_share_request_nonce(share: ConvictionMarketShare) -> u128 {
    if share.lifecycle is Uninitialized {
        0u128
    } else {
        share.state_nonce
    }
}

/// Queues a confidential share purchase against an opened market: the
/// amount and selected option travel only as ciphertext, and the circuit
/// reads the three affected records by reference. A share record not yet
/// claimed is activated lazily for the buyer, with a zero position, inside
/// the same operation. Fails with `MarketNotOpen` before the market is
/// opened, and with `DuplicateRequestHandle` when the handle is still
/// pending; on failure nothing is written.
pub fn buy_market_shares(
    queue: &mut ComputationQueue,
    market: &ConvictionMarket,
    market_address: Principal,
    user_vta: &VoteToken,
    user_vta_address: Principal,
    market_vta: &VoteToken,
    market_vta_address: Principal,
    user_share: &mut ConvictionMarketShare,
    user_share_address: Principal,
    signer: Principal,
    handle: u64,
    amount_ciphertext: CipherWord,
    selected_option_ciphertext: CipherWord,
    user_pubkey: [u8; 32],
    input_nonce: u128,
) -> (r: Result<(), ErrorCode>)
    requires
        old(queue).wf(),
    ensures
        final(queue).wf(),
        match r {
            Ok(()) => {
                &&& market.open_timestamp is Some
                &&& !old(queue).handle_pending(handle)
                &&& spec_enqueued(
                    *old(queue),
                    *final(queue),
                    handle,
                    CircuitId::BuyConvictionMarketShares,
                    spec_buy_market_shares_args(
                        user_pubkey,
                        input_nonce,
                        amount_ciphertext,
                        selected_option_ciphertext,
                        user_vta.state_nonce,
                        user_vta_address,
                        market_vta.state_nonce,
                        market_vta_address,
                        spec_share_request_nonce(*old(user_share)),
                        user_share_address,
                        market.total_options,
                    ),
                    seq![user_vta_address, market_vta_address, user_share_address],
                    1,
                )
                &&& (old(user_share).lifecycle is Uninitialized ==> {
                    &&& final(user_share).lifecycle is Active
                    &&& final(user_share).owner == signer
                    &&& final(user_share).market == market_address
                    &&& final(user_share).state_nonce == 0
                    &&& all_zero_state(final(user_share).encrypted_state@)
                })
                &&& (old(user_share).lifecycle is Active ==> *final(user_share) == *old(
                    user_share,
                ))
            },
            Err(e) => {
                &&& final(queue).pending@ == old(queue).pending@
                &&& *final(user_share) == *old(user_share)
                &&& (e == ErrorCode::MarketNotOpen || e == ErrorCode::ClusterNotSet || e
                    == ErrorCode::DuplicateRequestHandle)
                &&& (e == ErrorCode::MarketNotOpen <==> market.open_timestamp is None)
                &&& (e == ErrorCode::ClusterNotSet <==> market.open_timestamp is Some && old(
                    queue,
                ).cluster is None)
                &&& (e == ErrorCode::DuplicateRequestHandle <==> market.open_timestamp is Some
                    && old(queue).cluster is Some && old(queue).handle_pending(handle))
            },
        },
{
    if market.open_timestamp.is_none() {
        return Err(ErrorCode::MarketNotOpen);
    }
    let user_share_nonce: u128 = match user_share.lifecycle {
        ShareLifecycle::Uninitialized => 0,
        ShareLifecycle::Active => user_share.state_nonce,
    };
    let args = ArgumentEncoder::new()
        .x25519_pubkey(user_pubkey)
        .plaintext_u128(input_nonce)
        .encrypted_u64(amount_ciphertext)
        .encrypted_u16(selected_option_ciphertext)
        .plaintext_u128(user_vta.state_nonce)
        .account(user_vta_address, RECORD_STATE_OFFSET, VOTE_TOKEN_STATE_SIZE)
        .plaintext_u128(market_vta.state_nonce)
        .account(market_vta_address, RECORD_STATE_OFFSET, VOTE_TOKEN_STATE_SIZE)
        .plaintext_u128(user_share_nonce)
        .account(user_share_address, RECORD_STATE_OFFSET, SHARE_STATE_SIZE)
        .plaintext_u16(market.total_options)
        .build();
    proof {
        assert(args@ =~= spec_buy_market_shares_args(
            user_pubkey,
            input_nonce,
            amount_ciphertext,
            selected_option_ciphertext,
            user_vta.state_nonce,
            user_vta_address,
            market_vta.state_nonce,
            market_vta_address,
            spec_share_request_nonce(*user_share),
            user_share_address,
            market.total_options,
        ));
    }
    let mut callback_records: Vec<Principal> = Vec::new();
    callback_records.push(user_vta_address);
    callback_records.push(market_vta_address);
    callback_records.push(user_share_address);
    proof {
        assert(callback_records@ =~= seq![
            user_vta_address,
            market_vta_address,
            user_share_address,
        ]);
    }
    let ghost q0 = *queue;
    queue.enqueue(handle, CircuitId::BuyConvictionMarketShares, args, callback_records, 1)?;
    proof {
        assert(queue.pending@.subrange(0, q0.pending@.len() as int) =~= q0.pending@);
    }
    if matches!(user_share.lifecycle, ShareLifecycle::Uninitialized) {
        user_share.lifecycle = ShareLifecycle::Active;
        user_share.owner = signer;
        user_share.market = market_address;
        user_share.state_nonce = 0;
        user_share.encrypted_state = [[0u8; 32]; 2];
    }
    Ok(())
}

/// Whether the three records of a share purchase carry exactly their fresh
/// bundles' nonces and ciphertexts, everything else unchanged.
pub open spec fn spec_purchase_records_committed(
    user_vta0: VoteToken,
    market_vta0: VoteToken,
    user_share0: ConvictionMarketShare,
    user_vta1: VoteToken,
    market_vta1: VoteToken,
    user_share1: ConvictionMarketShare,
    user_bundle: CipherBundle<1>,
    market_bundle: CipherBundle<1>,
    share_bundle: CipherBundle<2>,
) -> bool {
    &&& user_vta1 == (VoteToken {
        state_nonce: user_bundle.nonce,
        encrypted_state: user_bundle.ciphertexts,
        ..user_vta0
    })
    &&& market_vta1 == (VoteToken {
        state_nonce: market_bundle.nonce,
        encrypted_state: market_bundle.ciphertexts,
        ..market_vta0
    })
    &&& user_share1 == (ConvictionMarketShare {
        state_nonce: share_bundle.nonce,
        encrypted_state: share_bundle.ciphertexts,
        ..user_share0
    })
}

/// Commits the cluster result of a share purchase. On a verified callback
/// with advancing nonces, all three records — buyer balance, market pool
/// balance, share position — are overwritten wholesale with their fresh
/// bundles **whether or not** the revealed combined error flag is set: a
/// failed purchase (out-of-bounds option or insufficient balance,
/// deliberately indistinguishable) re-encrypts the numerically unchanged
/// values, so ciphertext change and business effect are independent signals.
/// The flag alone governs the business effect: when it is set the purchase
/// is surfaced as `SharePurchaseFailed`, with the records committed all the
/// same.
pub fn buy_conviction_market_shares_callback(
    queue: &mut ComputationQueue,
    user_vta: &mut VoteToken,
    user_vta_address: Principal,
    market_vta: &mut VoteToken,
    market_vta_address: Principal,
    user_share: &mut ConvictionMarketShare,
    user_share_address: Principal,
    handle: u64,
    attested: bool,
    has_error: bool,
    user_bundle: &CipherBundle<1>,
    market_bundle: &CipherBundle<1>,
    share_bundle: &CipherBundle<2>,
) -> (r: Result<(), ErrorCode>)
    requires
        old(queue).wf(),
    ensures
        final(queue).wf(),
        !final(queue).handle_pending(handle),
        old(queue).handle_pending(handle) ==> final(queue).pending@ == old(
            queue,
        ).pending@.remove(old(queue).spec_index_of_handle(handle)),
        !old(queue).handle_pending(handle) ==> final(queue).pending@ == old(queue).pending@,
        match r {
            Ok(()) => {
                &&& attested
                &&& spec_pending_request_is(
                    *old(queue),
                    handle,
                    CircuitId::BuyConvictionMarketShares,
                    seq![user_vta_address, market_vta_address, user_share_address],
                )
                &&& !has_error
                &&& commit_accepted(old(user_vta).state_nonce, user_bundle.nonce)
                &&& commit_accepted(old(market_vta).state_nonce, market_bundle.nonce)
                &&& commit_accepted(old(user_share).state_nonce, share_bundle.nonce)
                &&& spec_purchase_records_committed(
                    *old(user_vta),
                    *old(market_vta),
                    *old(user_share),
                    *final(user_vta),
                    *final(market_vta),
                    *final(user_share),
                    *user_bundle,
                    *market_bundle,
                    *share_bundle,
                )
            },
            Err(e) => {
                &&& (e == ErrorCode::SharePurchaseFailed || e == ErrorCode::AbortedComputation)
                &&& (e == ErrorCode::SharePurchaseFailed <==> attested && spec_pending_request_is(
                    *old(queue),
                    handle,
                    CircuitId::BuyConvictionMarketShares,
                    seq![user_vta_address, market_vta_address, user_share_address],
                ) && commit_accepted(old(user_vta).state_nonce, user_bundle.nonce)
                    && commit_accepted(old(market_vta).state_nonce, market_bundle.nonce)
                    && commit_accepted(old(user_share).state_nonce, share_bundle.nonce)
                    && has_error)
                &&& (e == ErrorCode::SharePurchaseFailed ==> spec_purchase_records_committed(
                    *old(user_vta),
                    *old(market_vta),
                    *old(user_share),
                    *final(user_vta),
                    *final(market_vta),
                    *final(user_share),
                    *user_bundle,
                    *market_bundle,
                    *share_bundle,
                ))
                &&& (e == ErrorCode::AbortedComputation <==> !(attested && spec_pending_request_is(
                    *old(queue),
                    handle,
                    CircuitId::BuyConvictionMarketShares,
                    seq![user_vta_address, market_vta_address, user_share_address],
                ) && commit_accepted(old(user_vta).state_nonce, user_bundle.nonce)
                    && commit_accepted(old(market_vta).state_nonce, market_bundle.nonce)
                    && commit_accepted(old(user_share).state_nonce, share_bundle.nonce)))
                &&& (e == ErrorCode::AbortedComputation ==> *final(user_vta) == *old(user_vta)
                    && *final(market_vta) == *old(market_vta) && *final(user_share) == *old(
                    user_share,
                ))
            },
        },
{
    let req = match queue.accept_callback(handle, CircuitId::BuyConvictionMarketShares, attested) {
        Ok(req) => req,
        Err(e) => {
            return Err(e);
        },
    };
    if !(req.callback_records.len() == 3 && req.callback_records[0] == user_vta_address
        && req.callback_records[1] == market_vta_address && req.callback_records[2]
        == user_share_address) {
        return Err(ErrorCode::AbortedComputation);
    }
    proof {
        assert(req.callback_records@ =~= seq![
            user_vta_address,
            market_vta_address,
            user_share_address,
        ]);
    }
    if !(user_bundle.nonce > user_vta.state_nonce && market_bundle.nonce > market_vta.state_nonce
        && share_bundle.nonce > user_share.state_nonce) {
        return Err(ErrorCode::AbortedComputation);
    }
    user_vta.state_nonce = user_bundle.nonce;
    user_vta.encrypted_state = user_bundle.ciphertexts;
    market_vta.state_nonce = market_bundle.nonce;
    market_vta.encrypted_state = market_bundle.ciphertexts;
    user_share.state_nonce = share_bundle.nonce;
    user_share.encrypted_state = share_bundle.ciphertexts;
    if has_error {
        return Err(ErrorCode::SharePurchaseFailed);
    }
    Ok(())
}

} // verus!

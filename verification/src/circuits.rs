//! Plaintext semantics of the confidential circuits. The cluster evaluates
//! these functions over ciphertext; what is specified and verified here is
//! the arithmetic each circuit performs on the underlying plaintext values
//! and which of its outputs are deliberately revealed. Every update follows
//! the "leave unchanged under error" pattern: on a business-logic error the
//! state is left numerically unchanged (and merely re-encrypted), so a failed
//! operation is indistinguishable from a successful one by ciphertext shape
//! alone — only the revealed error flag governs the business effect.

use vstd::prelude::*;

use crate::record::Principal;

verus! {

/// Conviction-market state: vote totals for each option slot.
#[derive(Debug)]
pub struct MarketState {
    pub votes: [u64; 7],
}

/// A user's encrypted vote-token balance.
#[derive(Clone, Copy, PartialEq, Eq, Structural, Debug)]
pub struct UserVoteTokenBalance {
    pub amount: u64,
}

/// A user's share position in a conviction market.
#[derive(Clone, Copy, PartialEq, Eq, Structural, Debug)]
pub struct UserMarketSharePosition {
    pub share_amount: u64,
    pub selected_option: u16,
}

/// A user's encrypted input for buying market shares.
#[derive(Clone, Copy, PartialEq, Eq, Structural, Debug)]
pub struct BuySharesInput {
    pub amount: u64,
    pub selected_option: u16,
}

/// Builds the initial conviction-market state: every option's vote total is
/// zero.
pub fn init_market_state() -> (r: MarketState)
    ensures
        forall|i: int| 0 <= i < 7 ==> r.votes[i] == 0u64,
{
    MarketState { votes: [0u64; 7] }
}

/// Builds an empty vote-token balance.
pub fn init_vote_token_account() -> (r: UserVoteTokenBalance)
    ensures
        r.amount == 0,
{
    UserVoteTokenBalance { amount: 0 }
}

/// Whether a requested balance update fails: only a sell can fail, and only
/// for insufficient balance.
pub open spec fn spec_insufficient_balance(balance: u64, amount: u64, sell: bool) -> bool {
    sell && amount > balance
}

/// The balance a buy or sell commits: a buy adds, a sell subtracts, and a
/// failed sell leaves the balance unchanged.
pub open spec fn spec_updated_balance(balance: u64, amount: u64, sell: bool) -> int {
    if sell {
        if amount > balance {
            balance as int
        } else {
            balance - amount
        }
    } else {
        balance + amount
    }
}

/// The vote-token balance update. Returns the revealed error flag (true
/// means the requested effect did not happen), the nominally sold amount
/// (revealed only for sells; zero on a buy, since buying never reveals the
/// amount), and the new balance. On an insufficient-balance sell the new
/// balance equals the prior balance exactly and the error flag is true.
pub fn calculate_vote_token_balance(balance: &UserVoteTokenBalance, amount: u64, sell: bool) -> (r:
    (bool, u64, UserVoteTokenBalance))
    requires
        !sell ==> balance.amount + amount <= u64::MAX,
    ensures
        r.0 == spec_insufficient_balance(balance.amount, amount, sell),
        r.1 == if sell {
            amount
        } else {
            0u64
        },
        r.2.amount == spec_updated_balance(balance.amount, amount, sell),
        r.0 ==> r.2.amount == balance.amount,
{
    let sold: u64 = if sell {
        amount
    } else {
        0
    };
    let insufficient_balance = sell && amount > balance.amount;
    let new_amount: u64 = if sell {
        if insufficient_balance {
            balance.amount
        } else {
            balance.amount - amount
        }
    } else {
        balance.amount + amount
    };
    (insufficient_balance, sold, UserVoteTokenBalance { amount: new_amount })
}

/// Whether a share purchase fails: the selected option is out of bounds or
/// the buyer's balance is insufficient. The two causes are deliberately
/// merged so a failure reason is never revealed.
pub open spec fn spec_buy_has_error(
    input: BuySharesInput,
    user_amount: u64,
    total_options: u16,
) -> bool {
    input.selected_option >= total_options || input.amount > user_amount
}

/// The buyer's balance a share purchase commits.
pub open spec fn spec_buy_user_amount(
    input: BuySharesInput,
    user_amount: u64,
    total_options: u16,
) -> int {
    if spec_buy_has_error(input, user_amount, total_options) {
        user_amount as int
    } else {
        user_amount - input.amount
    }
}

/// The market pool balance a share purchase commits.
pub open spec fn spec_buy_market_amount(
    input: BuySharesInput,
    user_amount: u64,
    market_amount: u64,
    total_options: u16,
) -> int {
    if spec_buy_has_error(input, user_amount, total_options) {
        market_amount as int
    } else {
        market_amount + input.amount
    }
}

/// The share position a share purchase commits.
pub open spec fn spec_buy_share_position(
    input: BuySharesInput,
    user_amount: u64,
    share: UserMarketSharePosition,
    total_options: u16,
) -> (int, u16) {
    if spec_buy_has_error(input, user_amount, total_options) {
        (share.share_amount as int, share.selected_option)
    } else {
        (share.share_amount + input.amount, input.selected_option)
    }
}

/// The share-purchase circuit: moves vote tokens from the buyer to the
/// market pool and records the position. All four affected quantities —
/// buyer balance, pool balance, position amount, selected option — are left
/// unchanged under error, and only the single combined error flag is
/// revealed.
pub fn buy_conviction_market_shares(
    input: BuySharesInput,
    user_vta: &UserVoteTokenBalance,
    market_vta: &UserVoteTokenBalance,
    user_share: &UserMarketSharePosition,
    total_options: u16,
) -> (r: (bool, UserVoteTokenBalance, UserVoteTokenBalance, UserMarketSharePosition))
    requires
        !spec_buy_has_error(input, user_vta.amount, total_options) ==> market_vta.amount
            + input.amount <= u64::MAX && user_share.share_amount + input.amount <= u64::MAX,
    ensures
        r.0 == spec_buy_has_error(input, user_vta.amount, total_options),
        r.1.amount == spec_buy_user_amount(input, user_vta.amount, total_options),
        r.2.amount == spec_buy_market_amount(
            input,
            user_vta.amount,
            market_vta.amount,
            total_options,
        ),
        (r.3.share_amount as int, r.3.selected_option) == spec_buy_share_position(
            input,
            user_vta.amount,
            *user_share,
            total_options,
        ),
        r.0 ==> r.1 == *user_vta && r.2 == *market_vta && r.3 == *user_share,
{
    let amount = input.amount;
    let selected_option = input.selected_option;

    let invalid_option = selected_option >= total_options;
    let insufficient_balance = amount > user_vta.amount;
    let has_error = invalid_option || insufficient_balance;

    let new_user_amount = if has_error {
        user_vta.amount
    } else {
        user_vta.amount - amount
    };
    let new_market_amount = if has_error {
        market_vta.amount
    } else {
        market_vta.amount + amount
    };
    let new_share_amount = if has_error {
        user_share.share_amount
    } else {
        user_share.share_amount + amount
    };
    let new_selected_option = if has_error {
        user_share.selected_option
    } else {
        selected_option
    };

    (
        has_error,
        UserVoteTokenBalance { amount: new_user_amount },
        UserVoteTokenBalance { amount: new_market_amount },
        UserMarketSharePosition {
            share_amount: new_share_amount,
            selected_option: new_selected_option,
        },
    )
}

/// Combined-error anonymity: any two failing share purchases against the
/// same prior state — an out-of-bounds option, an insufficient balance, or
/// both — commit identical outputs: the error flag is true and every state
/// quantity equals its prior value, so nothing distinguishes the failure
/// reasons.
pub proof fn lemma_combined_error_anonymity(
    input_a: BuySharesInput,
    input_b: BuySharesInput,
    user_amount: u64,
    market_amount: u64,
    share: UserMarketSharePosition,
    total_options: u16,
)
    requires
        spec_buy_has_error(input_a, user_amount, total_options),
        spec_buy_has_error(input_b, user_amount, total_options),
    ensures
        spec_buy_user_amount(input_a, user_amount, total_options) == spec_buy_user_amount(
            input_b,
            user_amount,
            total_options,
        ),
        spec_buy_market_amount(input_a, user_amount, market_amount, total_options)
            == spec_buy_market_amount(input_b, user_amount, market_amount, total_options),
        spec_buy_share_position(input_a, user_amount, share, total_options)
            == spec_buy_share_position(input_b, user_amount, share, total_options),
        spec_buy_user_amount(input_a, user_amount, total_options) == user_amount as int,
        spec_buy_market_amount(input_a, user_amount, market_amount, total_options)
            == market_amount as int,
        spec_buy_share_position(input_a, user_amount, share, total_options) == (
            share.share_amount as int,
            share.selected_option,
        ),
{
}

/// The running aggregate a sealed-bid auction keeps in ciphertext: the
/// leading bidder's identity, the highest amount, and the second-highest
/// amount seen so far.
#[derive(Clone, Copy, PartialEq, Eq, Structural, Debug)]
pub struct AuctionCipherState {
    pub highest_bidder: Principal,
    pub highest_amount: u64,
    pub second_highest_amount: u64,
}

/// The empty auction aggregate: no bidder, zero amounts.
pub fn init_auction_state() -> (r: AuctionCipherState)
    ensures
        r.highest_bidder.lo == 0 && r.highest_bidder.hi == 0,
        r.highest_amount == 0,
        r.second_highest_amount == 0,
{
    AuctionCipherState {
        highest_bidder: Principal { lo: 0, hi: 0 },
        highest_amount: 0,
        second_highest_amount: 0,
    }
}

/// The aggregate after one bid: a strictly higher bid takes the lead and
/// demotes the prior leader's amount to second place; a bid between the two
/// amounts becomes the new second-highest; anything else changes nothing. A
/// bid equal to the leading amount does not displace the earlier bidder.
pub open spec fn spec_place_bid(
    state: AuctionCipherState,
    bidder: Principal,
    amount: u64,
) -> AuctionCipherState {
    if amount > state.highest_amount {
        AuctionCipherState {
            highest_bidder: bidder,
            highest_amount: amount,
            second_highest_amount: state.highest_amount,
        }
    } else if amount > state.second_highest_amount {
        AuctionCipherState { second_highest_amount: amount, ..state }
    } else {
        state
    }
}

/// The bid-placement circuit: folds one bid into the auction aggregate.
/// Nothing about the bid is revealed.
pub fn place_bid_update(state: &AuctionCipherState, bidder: Principal, amount: u64) -> (r:
    AuctionCipherState)
    ensures
        r == spec_place_bid(*state, bidder, amount),
{
    if amount > state.highest_amount {
        AuctionCipherState {
            highest_bidder: bidder,
            highest_amount: amount,
            second_highest_amount: state.highest_amount,
        }
    } else if amount > state.second_highest_amount {
        AuctionCipherState {
            highest_bidder: state.highest_bidder,
            highest_amount: state.highest_amount,
            second_highest_amount: amount,
        }
    } else {
        *state
    }
}

/// The first-price winner circuit: reveals exactly the winner's identity and
/// a payment equal to the winning bid. No other bid is revealed.
pub fn determine_winner_first_price_circuit(state: &AuctionCipherState) -> (r: (Principal, u64))
    ensures
        r.0 == state.highest_bidder,
        r.1 == state.highest_amount,
{
    (state.highest_bidder, state.highest_amount)
}

/// The Vickrey winner circuit: reveals exactly the winner's identity and a
/// payment equal to the second-highest bid. No other bid is revealed.
pub fn determine_winner_vickrey_circuit(state: &AuctionCipherState) -> (r: (Principal, u64))
    ensures
        r.0 == state.highest_bidder,
        r.1 == state.second_highest_amount,
{
    (state.highest_bidder, state.second_highest_amount)
}

/// The aggregate after a sequence of bids, folded in arrival order from the
/// empty aggregate.
pub open spec fn spec_run_bids(bids: Seq<(Principal, u64)>) -> AuctionCipherState
    decreases bids.len(),
{
    if bids.len() == 0 {
        AuctionCipherState {
            highest_bidder: Principal { lo: 0, hi: 0 },
            highest_amount: 0,
            second_highest_amount: 0,
        }
    } else {
        spec_place_bid(spec_run_bids(bids.drop_last()), bids.last().0, bids.last().1)
    }
}

/// After any sequence of bids, the leading amount is an upper bound on every
/// bid, the second-highest amount never exceeds it (so a Vickrey payment
/// never exceeds a first-price payment), and whenever the leading amount is
/// positive the recorded leader placed a bid of exactly that amount. (A zero
/// bid never takes the lead, so a zero leading amount names no bidder.)
pub proof fn lemma_run_bids_leader(bids: Seq<(Principal, u64)>)
    ensures
        forall|i: int| 0 <= i < bids.len() ==> bids[i].1 <= spec_run_bids(bids).highest_amount,
        spec_run_bids(bids).second_highest_amount <= spec_run_bids(bids).highest_amount,
        spec_run_bids(bids).highest_amount > 0 ==> exists|i: int|
            0 <= i < bids.len() && bids[i] == (
                spec_run_bids(bids).highest_bidder,
                spec_run_bids(bids).highest_amount,
            ),
    decreases bids.len(),
{
    if bids.len() > 0 {
        lemma_run_bids_leader(bids.drop_last());
        let prior = spec_run_bids(bids.drop_last());
        let state = spec_run_bids(bids);
        assert(forall|i: int| 0 <= i < bids.len() - 1 ==> bids[i] == bids.drop_last()[i]);
        if bids.last().1 > prior.highest_amount {
            assert(bids[bids.len() - 1] == (state.highest_bidder, state.highest_amount));
        } else if state.highest_amount > 0 {
            let j = choose|i: int|
                0 <= i < bids.drop_last().len() && bids.drop_last()[i] == (
                    prior.highest_bidder,
                    prior.highest_amount,
                );
            assert(bids[j] == (state.highest_bidder, state.highest_amount));
        }
    }
}

} // verus!

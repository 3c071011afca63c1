//! Vote-token accounts with real collateral: the encrypted logical balance
//! lives in the ciphertext word, while `pending_deposit` and `locked` form a
//! plaintext escrow-accounting sidecar, so externally transferred collateral
//! can be reconciled with the logical balance without revealing it. The
//! balance-update circuit runs through the asynchronous protocol; a sell
//! reveals the nominally sold amount, which is credited to the pending
//! deposit for the owner to claim, and the actual token transfer is the
//! caller's outward action.

use vstd::prelude::*;

use crate::encoder::{Argument, ArgumentEncoder};
use crate::errors::ErrorCode;
use crate::queue::{spec_enqueued, spec_pending_request_is, CircuitId, ComputationQueue};
use crate::record::{all_zero_state, commit_accepted, CipherBundle, CipherWord, Principal};

verus! {

/// Byte offset of the encrypted balance inside a vote-token account record:
/// it follows the record discriminator.
pub const VOTE_TOKEN_ACCOUNT_STATE_OFFSET: u32 = 8;

/// Byte length of the encrypted balance: one 32-byte word.
pub const VOTE_TOKEN_ACCOUNT_STATE_SIZE: u32 = 32 * 1;

/// A vote-token account: the encrypted logical balance plus the plaintext
/// escrow sidecar for the real collateral behind it.
#[derive(Debug)]
pub struct VoteTokenAccount {
    pub owner: Principal,
    /// The mint of the collateral token.
    pub token_mint: Principal,
    /// Distinguishes the owner's regular account (zero) from ephemeral ones.
    pub index: u64,
    /// The owner's key for addressing revealed results.
    pub user_pubkey: [u8; 32],
    /// Version nonce: advanced by every committed cluster result.
    pub state_nonce: u128,
    /// Collateral released by sells and not yet claimed by the owner.
    pub pending_deposit: u64,
    /// Whether the escrow is held pending reconciliation.
    pub locked: bool,
    /// The encrypted logical balance; overwritten only wholesale.
    pub encrypted_state: [CipherWord; 1],
}

/// Creates the owner's regular vote-token account: index zero, no balance,
/// no pending collateral.
pub fn init_vote_token_account(
    owner: Principal,
    token_mint: Principal,
    user_pubkey: [u8; 32],
) -> (r: VoteTokenAccount)
    ensures
        r.owner == owner,
        r.token_mint == token_mint,
        r.index == 0,
        r.user_pubkey == user_pubkey,
        r.state_nonce == 0,
        r.pending_deposit == 0,
        !r.locked,
        all_zero_state(r.encrypted_state@),
{
    VoteTokenAccount {
        owner,
        token_mint,
        index: 0,
        user_pubkey,
        state_nonce: 0,
        pending_deposit: 0,
        locked: false,
        encrypted_state: [[0u8; 32]; 1],
    }
}

/// Creates an ephemeral vote-token account for `owner` under a nonzero
/// index, copying the result-addressing key from the owner's regular
/// account. Permissionless: anyone may create it, but the source must be the
/// owner's own regular account.
pub fn init_ephemeral_vote_token_account(
    source: &VoteTokenAccount,
    owner: Principal,
    token_mint: Principal,
    index: u64,
) -> (r: Result<VoteTokenAccount, ErrorCode>)
    ensures
        match r {
            Ok(vta) => {
                &&& source.owner == owner
                &&& source.index == 0
                &&& vta.owner == owner
                &&& vta.token_mint == token_mint
                &&& vta.index == index
                &&& vta.user_pubkey == source.user_pubkey
                &&& vta.state_nonce == 0
                &&& vta.pending_deposit == 0
                &&& !vta.locked
                &&& all_zero_state(vta.encrypted_state@)
            },
            Err(e) => {
                &&& e == ErrorCode::Unauthorized
                &&& !(source.owner == owner && source.index == 0)
            },
        },
{
    if !(source.owner == owner && source.index == 0) {
        return Err(ErrorCode::Unauthorized);
    }
    Ok(
        VoteTokenAccount {
            owner,
            token_mint,
            index,
            user_pubkey: source.user_pubkey,
            state_nonce: 0,
            pending_deposit: 0,
            locked: false,
            encrypted_state: [[0u8; 32]; 1],
        },
    )
}

/// Releases the account's pending collateral to its owner. Only the owner
/// may claim, and only against the account's own mint. With nothing pending
/// this is a successful no-op returning `None`; otherwise the pending
/// deposit is cleared, the escrow unlocked, and the returned amount is what
/// the caller must transfer from the escrow to the owner.
pub fn claim_pending_deposit(
    vta: &mut VoteTokenAccount,
    signer: Principal,
    token_mint: Principal,
) -> (r: Result<Option<u64>, ErrorCode>)
    ensures
        match r {
            Ok(claimed) => {
                &&& old(vta).owner == signer
                &&& old(vta).token_mint == token_mint
                &&& match claimed {
                    Option::None => old(vta).pending_deposit == 0 && *final(vta) == *old(vta),
                    Option::Some(amount) => {
                        &&& amount == old(vta).pending_deposit
                        &&& amount > 0
                        &&& *final(vta) == (VoteTokenAccount {
                            pending_deposit: 0,
                            locked: false,
                            ..*old(vta)
                        })
                    },
                }
            },
            Err(e) => {
                &&& *final(vta) == *old(vta)
                &&& (e == ErrorCode::Unauthorized || e == ErrorCode::InvalidMint)
                &&& (e == ErrorCode::Unauthorized <==> old(vta).owner != signer)
                &&& (e == ErrorCode::InvalidMint <==> old(vta).owner == signer && old(
                    vta,
                ).token_mint != token_mint)
            },
        },
{
    if !(vta.owner == signer) {
        return Err(ErrorCode::Unauthorized);
    }
    if !(vta.token_mint == token_mint) {
        return Err(ErrorCode::InvalidMint);
    }
    if vta.pending_deposit == 0 {
        return Ok(None);
    }
    let amount = vta.pending_deposit;
    vta.pending_deposit = 0;
    vta.locked = false;
    Ok(Some(amount))
}

/// The request payload for a balance update, in the circuit's parameter
/// order: the balance record's nonce and a by-reference slice of its
/// ciphertext, then the plaintext amount and the sell flag.
pub open spec fn spec_balance_update_args(
    state_nonce: u128,
    vta_address: Principal,
    amount: u64,
    sell: bool,
) -> Seq<Argument> {
    seq![
        Argument::PlaintextU128(state_nonce),
        Argument::RecordRef {
            address: vta_address,
            offset: VOTE_TOKEN_ACCOUNT_STATE_OFFSET,
            length: VOTE_TOKEN_ACCOUNT_STATE_SIZE,
        },
        Argument::PlaintextU64(amount),
        Argument::PlaintextBool(sell),
    ]
}

/// Queues a buy or sell of vote tokens against the account's encrypted
/// balance. Fails only when the caller-chosen handle is still pending.
pub fn request_vote_token_balance_update(
    queue: &mut ComputationQueue,
    vta: &VoteTokenAccount,
    vta_address: Principal,
    amount: u64,
    sell: bool,
    handle: u64,
) -> (r: Result<(), ErrorCode>)
    requires
        old(queue).wf(),
    ensures
        final(queue).wf(),
        match r {
            Ok(()) => {
                &&& !old(queue).handle_pending(handle)
                &&& spec_enqueued(
                    *old(queue),
                    *final(queue),
                    handle,
                    CircuitId::CalculateVoteTokenBalance,
                    spec_balance_update_args(vta.state_nonce, vta_address, amount, sell),
                    seq![vta_address],
                    1,
                )
            },
            Err(e) => {
                &&& final(queue).pending@ == old(queue).pending@
                &&& (e == ErrorCode::ClusterNotSet || e == ErrorCode::DuplicateRequestHandle)
                &&& (e == ErrorCode::ClusterNotSet <==> old(queue).cluster is None)
                &&& (e == ErrorCode::DuplicateRequestHandle <==> old(queue).cluster is Some && old(
                    queue,
                ).handle_pending(handle))
            },
        },
{
    let args = ArgumentEncoder::new()
        .plaintext_u128(vta.state_nonce)
        .account(vta_address, VOTE_TOKEN_ACCOUNT_STATE_OFFSET, VOTE_TOKEN_ACCOUNT_STATE_SIZE)
        .plaintext_u64(amount)
        .plaintext_bool(sell)
        .build();
    proof {
        assert(args@ =~= spec_balance_update_args(vta.state_nonce, vta_address, amount, sell));
    }
    let mut callback_records: Vec<Principal> = Vec::new();
    callback_records.push(vta_address);
    let ghost q0 = *queue;
    queue.enqueue(handle, CircuitId::CalculateVoteTokenBalance, args, callback_records, 1)?;
    proof {
        assert(queue.pending@.subrange(0, q0.pending@.len() as int) =~= q0.pending@);
    }
    Ok(())
}

/// Commits the cluster result of a balance update. The fresh ciphertext is
/// committed whether or not the revealed error flag is set — a failed update
/// re-encrypts the unchanged balance, so failure is not distinguishable from
/// success by ciphertext shape — but only a successful update credits the
/// revealed sold amount to the pending collateral. Returns the revealed
/// pair (error flag, sold amount) for the caller's accounting.
pub fn vote_token_balance_callback(
    queue: &mut ComputationQueue,
    vta: &mut VoteTokenAccount,
    vta_address: Principal,
    handle: u64,
    attested: bool,
    error: bool,
    sold: u64,
    bundle: &CipherBundle<1>,
) -> (r: Result<(bool, u64), ErrorCode>)
    requires
        old(queue).wf(),
    ensures
        final(queue).wf(),
        !final(queue).handle_pending(handle),
        old(queue).handle_pending(handle) ==> final(queue).pending@ == old(
            queue,
        ).pending@.remove(old(queue).spec_index_of_handle(handle)),
        !old(queue).handle_pending(handle) ==> final(queue).pending@ == old(queue).pending@,
        match r {
            Ok(revealed) => {
                &&& attested
                &&& spec_pending_request_is(
                    *old(queue),
                    handle,
                    CircuitId::CalculateVoteTokenBalance,
                    seq![vta_address],
                )
                &&& commit_accepted(old(vta).state_nonce, bundle.nonce)
                &&& revealed == (error, sold)
                &&& (!error ==> old(vta).pending_deposit + sold <= u64::MAX)
                &&& *final(vta) == (VoteTokenAccount {
                    state_nonce: bundle.nonce,
                    encrypted_state: bundle.ciphertexts,
                    pending_deposit: if error {
                        old(vta).pending_deposit
                    } else {
                        (old(vta).pending_deposit + sold) as u64
                    },
                    ..*old(vta)
                })
            },
            Err(e) => {
                &&& *final(vta) == *old(vta)
                &&& (e == ErrorCode::AbortedComputation || e == ErrorCode::Overflow)
                &&& (e == ErrorCode::AbortedComputation <==> !(attested && spec_pending_request_is(
                    *old(queue),
                    handle,
                    CircuitId::CalculateVoteTokenBalance,
                    seq![vta_address],
                ) && commit_accepted(old(vta).state_nonce, bundle.nonce)))
                &&& (e == ErrorCode::Overflow <==> attested && spec_pending_request_is(
                    *old(queue),
                    handle,
                    CircuitId::CalculateVoteTokenBalance,
                    seq![vta_address],
                ) && commit_accepted(old(vta).state_nonce, bundle.nonce) && !error && old(
                    vta,
                ).pending_deposit + sold > u64::MAX)
            },
        },
{
    let req = match queue.accept_callback(handle, CircuitId::CalculateVoteTokenBalance, attested) {
        Ok(req) => req,
        Err(e) => {
            return Err(e);
        },
    };
    if !(req.callback_records.len() == 1 && req.callback_records[0] == vta_address) {
        return Err(ErrorCode::AbortedComputation);
    }
    proof {
        assert(req.callback_records@ =~= seq![vta_address]);
    }
    if !(bundle.nonce > vta.state_nonce) {
        return Err(ErrorCode::AbortedComputation);
    }
    if !error {
        let new_pending = match vta.pending_deposit.checked_add(sold) {
            Some(total) => total,
            None => {
                return Err(ErrorCode::Overflow);
            },
        };
        vta.pending_deposit = new_pending;
    }
    vta.state_nonce = bundle.nonce;
    vta.encrypted_state = bundle.ciphertexts;
    Ok((error, sold))
}

} // verus!

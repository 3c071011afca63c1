//! Permissionless, idempotent-guarded tallying. Anyone may fold a
//! participant's revealed share amount into the option's running total, but
//! each share record is counted exactly once: the record must have been
//! revealed before the deadline and not already tallied, and a successful
//! increment sets the guard so a second attempt fails.

use vstd::prelude::*;

use crate::errors::ErrorCode;
use crate::record::Principal;

verus! {

/// A participant's revealed share position, as the tallying sees it.
#[derive(Debug)]
pub struct ShareAccount {
    pub owner: Principal,
    pub market: Principal,
    /// The share amount the owner revealed; `None` until they did.
    pub revealed_amount: Option<u64>,
    /// Whether the reveal happened before the deadline.
    pub revealed_in_time: bool,
    /// The idempotence guard: set once the amount was tallied.
    pub total_incremented: bool,
}

/// A per-option running total of revealed share amounts.
#[derive(Debug)]
pub struct OptionTally {
    pub total_shares_bought: u64,
}

/// Whether an increment is admissible and free of overflow: revealed in
/// time, not yet counted, an amount actually revealed, and room in the
/// counter.
pub open spec fn spec_tally_ok(share: ShareAccount, tally: OptionTally) -> bool {
    &&& share.revealed_in_time
    &&& !share.total_incremented
    &&& share.revealed_amount is Some
    &&& tally.total_shares_bought + share.revealed_amount->0 <= u64::MAX
}

/// The share record after a successful increment: only the guard is set.
pub open spec fn spec_tally_after_share(share: ShareAccount) -> ShareAccount {
    ShareAccount { total_incremented: true, ..share }
}

/// Folds one revealed share amount into the option's total and sets the
/// record's guard. Permissionless: no caller identity is checked. Fails,
/// changing nothing, when the record was revealed too late, was already
/// counted, has nothing revealed, or the total would overflow.
pub fn increment_option_tally(share: &mut ShareAccount, tally: &mut OptionTally) -> (r: Result<
    (),
    ErrorCode,
>)
    ensures
        match r {
            Ok(()) => {
                &&& spec_tally_ok(*old(share), *old(tally))
                &&& *final(share) == spec_tally_after_share(*old(share))
                &&& final(tally).total_shares_bought == old(tally).total_shares_bought + old(
                    share,
                ).revealed_amount->0
            },
            Err(e) => {
                &&& *final(share) == *old(share)
                &&& *final(tally) == *old(tally)
                &&& (e == ErrorCode::RevealedTooLate || e == ErrorCode::TallyAlreadyIncremented
                    || e == ErrorCode::NotRevealed || e == ErrorCode::Overflow)
                &&& (e == ErrorCode::RevealedTooLate <==> !old(share).revealed_in_time)
                &&& (e == ErrorCode::TallyAlreadyIncremented <==> old(share).revealed_in_time
                    && old(share).total_incremented)
                &&& (e == ErrorCode::NotRevealed <==> old(share).revealed_in_time && !old(
                    share,
                ).total_incremented && old(share).revealed_amount is None)
                &&& (e == ErrorCode::Overflow <==> old(share).revealed_in_time && !old(
                    share,
                ).total_incremented && old(share).revealed_amount is Some && old(
                    tally,
                ).total_shares_bought + old(share).revealed_amount->0 > u64::MAX)
            },
        },
{
    if !share.revealed_in_time {
        return Err(ErrorCode::RevealedTooLate);
    }
    if share.total_incremented {
        return Err(ErrorCode::TallyAlreadyIncremented);
    }
    let revealed_amount = match share.revealed_amount {
        Some(amount) => amount,
        None => {
            return Err(ErrorCode::NotRevealed);
        },
    };
    let new_total = match tally.total_shares_bought.checked_add(revealed_amount) {
        Some(total) => total,
        None => {
            return Err(ErrorCode::Overflow);
        },
    };
    tally.total_shares_bought = new_total;
    share.total_incremented = true;
    Ok(())
}

/// Idempotent tally: a successful increment sets the guard, so no further
/// increment is admissible for the same share record, whatever the tally
/// then holds — the revealed amount is counted exactly once.
pub proof fn lemma_tally_idempotent(
    share: ShareAccount,
    tally: OptionTally,
    tally_after: OptionTally,
)
    requires
        spec_tally_ok(share, tally),
    ensures
        !spec_tally_ok(spec_tally_after_share(share), tally_after),
        spec_tally_after_share(share).revealed_in_time,
        spec_tally_after_share(share).total_incremented,
{
}

} // verus!

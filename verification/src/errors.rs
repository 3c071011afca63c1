//! Error codes surfaced to callers. Structural errors (wrong phase, bad
//! authority, duplicate handles, overflow) are detected synchronously and no
//! state is written; business-logic errors produced inside the confidential
//! computation surface only as a revealed flag in a successful callback and
//! are converted to a code (`SharePurchaseFailed`) by the caller-side
//! post-processing.

use vstd::prelude::*;

verus! {

#[derive(Clone, Copy, PartialEq, Eq, Structural, Debug)]
pub enum ErrorCode {
    /// The callback bundle failed authentication, referenced no pending
    /// request, or named a different circuit than was enqueued.
    AbortedComputation,
    /// No computation cluster is configured for the requests.
    ClusterNotSet,
    /// The auction is not open for bidding.
    AuctionNotOpen,
    /// The auction is not closed yet.
    AuctionNotClosed,
    /// Wrong auction type for this winner-determination operation.
    WrongAuctionType,
    /// The acting principal is not the one authorized for the record.
    Unauthorized,
    /// A plaintext counter would overflow its width.
    Overflow,
    /// The share record has no revealed amount to tally.
    NotRevealed,
    /// The share record was revealed after the deadline.
    RevealedTooLate,
    /// The share record's revealed amount was already tallied.
    TallyAlreadyIncremented,
    /// The token account is bound to a different mint.
    InvalidMint,
    /// The market is not in the phase the operation requires.
    MarketNotOpen,
    /// The market already holds its maximum number of options.
    MaxOptionsReached,
    /// The caller-chosen request handle is still pending.
    DuplicateRequestHandle,
    /// The confidential purchase reported its combined error flag.
    SharePurchaseFailed,
}

} // verus!

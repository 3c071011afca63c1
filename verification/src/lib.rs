//! Confidential market and sealed-bid auction primitives on a shared ledger.
//!
//! Sensitive values (bid amounts, vote-token balances, selected options) live
//! only as ciphertext in versioned ledger records. Mutations happen through an
//! asynchronous protocol: a request is encoded and enqueued for an external
//! confidential-computation cluster, and a later callback delivers fresh
//! ciphertexts plus a few deliberately revealed scalars, which are committed
//! to the records. This crate holds the verified core of that protocol: the
//! record versioning and commit rules, the request encoder, the computation
//! queue and callback verifier, the market and auction state machines, the
//! plaintext semantics of the confidential circuits, and the permissionless
//! tally aggregator.

pub mod auction;
pub mod circuits;
pub mod encoder;
pub mod errors;
pub mod events;
pub mod market;
pub mod queue;
pub mod record;
pub mod tally;
pub mod vote_token;

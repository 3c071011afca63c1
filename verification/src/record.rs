//! Versioned encrypted ledger records: the principal identity that owns them,
//! the ciphertext bundles a cluster result delivers, and the rule that commits
//! a bundle only when its nonce advances the record's version.

use vstd::prelude::*;

verus! {

/// A principal identity on the ledger (an owner, an authority, or a record
/// address), carried as a 256-bit value split into two 128-bit halves, the
/// same split in which the confidential circuits reveal a winner identity.
#[derive(Clone, Copy, PartialEq, Eq, Structural, Debug)]
pub struct Principal {
    pub lo: u128,
    pub hi: u128,
}

impl Principal {
    /// The all-zero identity; fresh records that no principal has claimed
    /// yet carry it.
    pub fn zero() -> (r: Principal)
        ensures
            r.lo == 0 && r.hi == 0,
    {
        Principal { lo: 0, hi: 0 }
    }
}

/// One fixed-width encrypted word, as the cluster returns it.
pub type CipherWord = [u8; 32];

/// A fresh encrypted state for one record, as delivered by a verified cluster
/// callback: the new version nonce together with the full ciphertext layout.
/// A record is only ever overwritten wholesale by such a bundle.
#[derive(Debug)]
pub struct CipherBundle<const N: usize> {
    pub nonce: u128,
    pub ciphertexts: [CipherWord; N],
}

/// Whether every byte of every ciphertext word in `s` is zero: the state a
/// record is created with, before its first cluster result arrives.
pub open spec fn all_zero_state(s: Seq<CipherWord>) -> bool {
    forall|i: int, j: int| 0 <= i < s.len() && 0 <= j < 32 ==> s[i]@[j] == 0u8
}

/// Whether a commit of a bundle carrying `bundle_nonce` is accepted on a
/// record currently at `current_nonce`: the nonce must strictly advance, so
/// a stale or replayed callback is never applied.
pub open spec fn commit_accepted(current_nonce: u128, bundle_nonce: u128) -> bool {
    bundle_nonce > current_nonce
}

/// Whether every nonce in `nonces`, read in order starting from a record at
/// `start`, would be accepted by a commit: each entry strictly exceeds the
/// one before it.
pub open spec fn nonce_chain_holds(start: u128, nonces: Seq<u128>) -> bool
    decreases nonces.len(),
{
    nonces.len() == 0 || (commit_accepted(start, nonces[0]) && nonce_chain_holds(
        nonces[0],
        nonces.subrange(1, nonces.len() as int),
    ))
}

/// Every nonce in an accepted chain exceeds the starting nonce.
pub proof fn lemma_nonce_chain_above_start(start: u128, nonces: Seq<u128>, i: int)
    requires
        nonce_chain_holds(start, nonces),
        0 <= i < nonces.len(),
    ensures
        start < nonces[i],
    decreases i,
{
    if i > 0 {
        lemma_nonce_chain_above_start(nonces[0], nonces.subrange(1, nonces.len() as int), i - 1);
    }
}

/// Nonce monotonicity: across any sequence of successful commits on one
/// record, the observed `state_nonce` values are strictly increasing.
pub proof fn lemma_nonce_monotonicity(start: u128, nonces: Seq<u128>, i: int, j: int)
    requires
        nonce_chain_holds(start, nonces),
        0 <= i < j < nonces.len(),
    ensures
        nonces[i] < nonces[j],
    decreases i,
{
    let rest = nonces.subrange(1, nonces.len() as int);
    if i == 0 {
        lemma_nonce_chain_above_start(nonces[0], rest, j - 1);
    } else {
        lemma_nonce_monotonicity(nonces[0], rest, i - 1, j - 1);
    }
}

} // verus!

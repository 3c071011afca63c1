//! The computation queue and the callback verifier. A request — circuit
//! identifier, encoded arguments, the records its callback may mutate, and a
//! caller-chosen unique handle — is queued for asynchronous evaluation; the
//! result arrives in a later, separate transaction and is accepted only if it
//! is attested, references a handle that is still pending, and names the same
//! circuit that was enqueued. A rejected or accepted callback leaves the
//! handle non-pending, so a fresh request may be issued.

use vstd::prelude::*;

use crate::encoder::Argument;
use crate::errors::ErrorCode;
use crate::record::Principal;

verus! {

/// The confidential circuits the cluster can evaluate.
#[derive(Clone, Copy, PartialEq, Eq, Structural, Debug)]
pub enum CircuitId {
    InitMarketState,
    InitVoteTokenAccount,
    CalculateVoteTokenBalance,
    BuyConvictionMarketShares,
    InitAuctionState,
    PlaceBid,
    DetermineWinnerFirstPrice,
    DetermineWinnerVickrey,
}

/// One request handed to the cluster and awaiting its callback.
#[derive(Debug)]
pub struct PendingRequest {
    /// The caller-chosen handle; unique among pending requests.
    pub handle: u64,
    /// The circuit the cluster is to evaluate.
    pub circuit: CircuitId,
    /// The encoded positional arguments, in circuit parameter order.
    pub args: Vec<Argument>,
    /// The ledger records the callback is authorized to mutate.
    pub callback_records: Vec<Principal>,
    /// How many output bundles the circuit's result carries.
    pub output_count: u32,
}

/// The set of requests enqueued and not yet answered, together with the
/// cluster they are handed to. No request can be accepted before a cluster
/// is configured.
#[derive(Debug)]
pub struct ComputationQueue {
    /// The identity of the configured computation cluster, if any.
    pub cluster: Option<Principal>,
    pub pending: Vec<PendingRequest>,
}

impl ComputationQueue {
    /// Whether a request with handle `h` is pending.
    pub open spec fn handle_pending(self, h: u64) -> bool {
        exists|i: int| 0 <= i < self.pending@.len() && self.pending@[i].handle == h
    }

    /// The position of the pending request with handle `h`.
    pub open spec fn spec_index_of_handle(self, h: u64) -> int {
        choose|i: int| 0 <= i < self.pending@.len() && self.pending@[i].handle == h
    }

    /// Well-formedness: pending handles are pairwise distinct.
    pub open spec fn wf(self) -> bool {
        forall|i: int, j: int|
            0 <= i < j < self.pending@.len() ==> self.pending@[i].handle
                != self.pending@[j].handle
    }

    /// An empty queue with no cluster configured yet.
    pub fn new() -> (q: ComputationQueue)
        ensures
            q.cluster is None,
            q.pending@ == Seq::<PendingRequest>::empty(),
            q.wf(),
    {
        ComputationQueue { cluster: None, pending: Vec::new() }
    }

    /// Configures the cluster the queue hands requests to.
    pub fn set_cluster(&mut self, cluster: Principal)
        ensures
            *final(self) == (ComputationQueue { cluster: Some(cluster), ..*old(self) }),
    {
        self.cluster = Some(cluster);
    }

    /// Looks up whether `handle` is pending, and at which position.
    fn find_handle(&self, handle: u64) -> (r: Option<usize>)
        ensures
            match r {
                Some(i) => i < self.pending@.len() && self.pending@[i as int].handle == handle
                    && self.handle_pending(handle),
                None => !self.handle_pending(handle),
            },
    {
        let mut i: usize = 0;
        while i < self.pending.len()
            invariant
                i <= self.pending@.len(),
                forall|k: int| 0 <= k < i ==> self.pending@[k].handle != handle,
            decreases self.pending@.len() - i,
        {
            if self.pending[i].handle == handle {
                return Some(i);
            }
            i = i + 1;
        }
        None
    }

    /// Accepts a request for asynchronous evaluation. Fails, changing
    /// nothing, when no cluster is configured or when the caller-chosen
    /// handle is still pending; otherwise registers exactly one callback
    /// binding for the request.
    pub fn enqueue(
        &mut self,
        handle: u64,
        circuit: CircuitId,
        args: Vec<Argument>,
        callback_records: Vec<Principal>,
        output_count: u32,
    ) -> (r: Result<(), ErrorCode>)
        requires
            old(self).wf(),
        ensures
            final(self).wf(),
            final(self).cluster == old(self).cluster,
            match r {
                Ok(()) => {
                    &&& old(self).cluster is Some
                    &&& !old(self).handle_pending(handle)
                    &&& final(self).pending@ == old(self).pending@.push(
                        PendingRequest { handle, circuit, args, callback_records, output_count },
                    )
                },
                Err(e) => {
                    &&& final(self).pending@ == old(self).pending@
                    &&& (e == ErrorCode::ClusterNotSet || e == ErrorCode::DuplicateRequestHandle)
                    &&& (e == ErrorCode::ClusterNotSet <==> old(self).cluster is None)
                    &&& (e == ErrorCode::DuplicateRequestHandle <==> old(self).cluster is Some
                        && old(self).handle_pending(handle))
                },
            },
    {
        if self.cluster.is_none() {
            return Err(ErrorCode::ClusterNotSet);
        }
        match self.find_handle(handle) {
            Some(_) => Err(ErrorCode::DuplicateRequestHandle),
            None => {
                self.pending.push(
                    PendingRequest { handle, circuit, args, callback_records, output_count },
                );
                Ok(())
            },
        }
    }

    /// Verifies a cluster result bundle against the pending request it claims
    /// to answer: it must be attested as authentic (`attested`), its handle
    /// must still be pending, and its circuit must match what was enqueued.
    /// On success the pending request is handed back for the caller's commit;
    /// on failure `AbortedComputation` is returned and no record state is to
    /// be mutated. Either way the handle is no longer pending afterwards, so
    /// a fresh request may be issued.
    pub fn accept_callback(&mut self, handle: u64, circuit: CircuitId, attested: bool) -> (r:
        Result<PendingRequest, ErrorCode>)
        requires
            old(self).wf(),
        ensures
            final(self).wf(),
            final(self).cluster == old(self).cluster,
            !final(self).handle_pending(handle),
            match r {
                Ok(req) => {
                    &&& attested
                    &&& old(self).handle_pending(handle)
                    &&& req == old(self).pending@[old(self).spec_index_of_handle(handle)]
                    &&& req.handle == handle
                    &&& req.circuit == circuit
                    &&& final(self).pending@ == old(self).pending@.remove(
                        old(self).spec_index_of_handle(handle),
                    )
                },
                Err(e) => {
                    &&& e == ErrorCode::AbortedComputation
                    &&& !(attested && old(self).handle_pending(handle) && old(self).pending@[old(
                        self,
                    ).spec_index_of_handle(handle)].circuit == circuit)
                    &&& (old(self).handle_pending(handle) ==> final(self).pending@ == old(
                        self,
                    ).pending@.remove(old(self).spec_index_of_handle(handle)))
                    &&& (!old(self).handle_pending(handle) ==> final(self).pending@ == old(
                        self,
                    ).pending@)
                },
            },
    {
        let ghost q0 = *self;
        match self.find_handle(handle) {
            None => Err(ErrorCode::AbortedComputation),
            Some(i) => {
                proof {
                    let j = q0.spec_index_of_handle(handle);
                    assert(0 <= j < q0.pending@.len() && q0.pending@[j].handle == handle);
                    assert(j == i as int);
                }
                let req = self.pending.remove(i);
                proof {
                    lemma_remove_keeps_handles_distinct(q0.pending@, i as int);
                    assert forall|k: int| 0 <= k < self.pending@.len() implies self.pending@[k].handle
                        != handle by {
                        if k < i as int {
                            assert(self.pending@[k] == q0.pending@[k]);
                        } else {
                            assert(self.pending@[k] == q0.pending@[k + 1]);
                        }
                    }
                }
                if attested && req.circuit == circuit {
                    Ok(req)
                } else {
                    Err(ErrorCode::AbortedComputation)
                }
            },
        }
    }
}

/// How a queue looks after one request was enqueued on `q0`: the prior
/// requests stand unchanged and the new one, with exactly these fields, is
/// last.
pub open spec fn spec_enqueued(
    q0: ComputationQueue,
    q1: ComputationQueue,
    handle: u64,
    circuit: CircuitId,
    args: Seq<Argument>,
    callback_records: Seq<Principal>,
    output_count: u32,
) -> bool {
    &&& q1.cluster == q0.cluster
    &&& q0.cluster is Some
    &&& q1.pending@.len() == q0.pending@.len() + 1
    &&& q1.pending@.subrange(0, q0.pending@.len() as int) == q0.pending@
    &&& q1.pending@.last().handle == handle
    &&& q1.pending@.last().circuit == circuit
    &&& q1.pending@.last().args@ == args
    &&& q1.pending@.last().callback_records@ == callback_records
    &&& q1.pending@.last().output_count == output_count
}

/// Whether the queue holds a pending request under `handle` for `circuit`
/// whose callback is bound to exactly these records.
pub open spec fn spec_pending_request_is(
    q: ComputationQueue,
    handle: u64,
    circuit: CircuitId,
    callback_records: Seq<Principal>,
) -> bool {
    &&& q.handle_pending(handle)
    &&& q.pending@[q.spec_index_of_handle(handle)].circuit == circuit
    &&& q.pending@[q.spec_index_of_handle(handle)].callback_records@ == callback_records
}

/// Removing an entry keeps the remaining handles pairwise distinct.
proof fn lemma_remove_keeps_handles_distinct(s: Seq<PendingRequest>, i: int)
    requires
        0 <= i < s.len(),
        forall|k: int, l: int| 0 <= k < l < s.len() ==> s[k].handle != s[l].handle,
    ensures
        forall|k: int, l: int|
            0 <= k < l < s.remove(i).len() ==> s.remove(i)[k].handle != s.remove(i)[l].handle,
{
    let t = s.remove(i);
    assert forall|k: int, l: int| 0 <= k < l < t.len() implies t[k].handle != t[l].handle by {
        let k0 = if k < i {
            k
        } else {
            k + 1
        };
        let l0 = if l < i {
            l
        } else {
            l + 1
        };
        assert(t[k] == s[k0]);
        assert(t[l] == s[l0]);
    }
}

} // verus!

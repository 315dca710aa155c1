//! The request ledger: the votes cast on inbound requests and the requests
//! that were carried out.

use crate::error::MostError;
use crate::hashing::{AccountId, HashedRequest};
use crate::table::Table;
use vstd::prelude::*;

verus! {

/// A request that is still collecting votes.
#[derive(Default, Debug, Clone, Copy, PartialEq, Eq)]
pub struct Request {
    pub signature_count: u128,
}

/// Where a request stands.
#[derive(Debug, Clone, Copy, PartialEq, Eq)]
pub enum RequestStatus {
    /// Still collecting votes; their number is given by its lowest 32 bits.
    Pending { collected_signatures: u32 },
    /// Carried out; no vote changes it any more.
    Processed,
    /// No vote was ever cast on this hash.
    RequestHashNotKnown,
}

/// What became of a vote.
#[derive(Debug, Clone, Copy, PartialEq, Eq)]
pub enum VoteAction {
    /// The request had been carried out before; the vote changed nothing.
    AlreadyProcessed,
    /// The signer had voted on this request before; the vote changed nothing.
    AlreadySigned,
    /// The vote was counted, and the request now has `new_count` votes.
    Counted { new_count: u128 },
}

/// The votes cast on the request with hash `h`.
pub open spec fn votes_on(signatures: Set<(HashedRequest, AccountId)>, h: HashedRequest) -> Set<
    (HashedRequest, AccountId),
> {
    signatures.filter(|vote: (HashedRequest, AccountId)| vote.0 == h)
}

/// What the ledger holds.
#[verifier::ext_equal]
pub struct LedgerState {
    /// The number of votes of each request that is collecting votes.
    pub pending: Map<HashedRequest, Request>,
    /// Who voted on what. A vote stays on record when its request is carried out.
    pub signatures: Set<(HashedRequest, AccountId)>,
    /// The requests that were carried out.
    pub processed: Set<HashedRequest>,
}

impl LedgerState {
    /// The ledger before any vote.
    pub open spec fn empty() -> LedgerState {
        LedgerState { pending: Map::empty(), signatures: Set::empty(), processed: Set::empty() }
    }

    /// The number of votes on record for `h`.
    pub open spec fn votes(self, h: HashedRequest) -> nat {
        votes_on(self.signatures, h).len()
    }

    /// The number of votes counted for `h` while it is pending, else zero.
    pub open spec fn signature_count(self, h: HashedRequest) -> u128 {
        if self.pending.contains_key(h) {
            self.pending[h].signature_count
        } else {
            0
        }
    }

    /// No request is both pending and processed, a pending request's count is
    /// the number of votes on record for it, and a request that is neither
    /// pending nor processed has no vote on record.
    pub open spec fn valid(self) -> bool {
        &&& self.signatures.finite()
        &&& forall|h: HashedRequest| #[trigger]
            self.processed.contains(h) ==> !self.pending.contains_key(h)
        &&& forall|h: HashedRequest| #[trigger]
            self.pending.contains_key(h) ==> self.pending[h].signature_count == self.votes(h)
        &&& forall|h: HashedRequest|
            !self.pending.contains_key(h) && !self.processed.contains(h) ==> #[trigger] self.votes(
                h,
            ) == 0
    }

    /// Where the request with hash `h` stands: processed, else pending, else unknown.
    pub open spec fn status(self, h: HashedRequest) -> RequestStatus {
        if self.processed.contains(h) {
            RequestStatus::Processed
        } else if self.pending.contains_key(h) {
            RequestStatus::Pending {
                collected_signatures: self.pending[h].signature_count as u32,
            }
        } else {
            RequestStatus::RequestHashNotKnown
        }
    }

    /// The ledger after `signer` votes on `h`, and what became of the vote.
    pub open spec fn record_vote(self, h: HashedRequest, signer: AccountId) -> Result<
        (LedgerState, VoteAction),
        MostError,
    > {
        if self.processed.contains(h) {
            Ok((self, VoteAction::AlreadyProcessed))
        } else if self.signatures.contains((h, signer)) {
            Ok((self, VoteAction::AlreadySigned))
        } else if self.signature_count(h) == u128::MAX {
            Err(MostError::Arithmetic)
        } else {
            let new_count = (self.signature_count(h) + 1) as u128;
            Ok(
                (
                    LedgerState {
                        pending: self.pending.insert(h, Request { signature_count: new_count }),
                        signatures: self.signatures.insert((h, signer)),
                        processed: self.processed,
                    },
                    VoteAction::Counted { new_count },
                ),
            )
        }
    }

    /// The ledger after the request with hash `h` was carried out.
    pub open spec fn finalize(self, h: HashedRequest) -> LedgerState {
        LedgerState {
            pending: self.pending.remove(h),
            signatures: self.signatures,
            processed: self.processed.insert(h),
        }
    }

    /// A counted vote adds one to the votes on record for its request and
    /// leaves those of every other request as they were.
    pub proof fn lemma_vote_counts(self, h: HashedRequest, signer: AccountId)
        requires
            self.signatures.finite(),
            !self.signatures.contains((h, signer)),
        ensures
            votes_on(self.signatures.insert((h, signer)), h).len() == self.votes(h) + 1,
            forall|other: HashedRequest|
                other != h ==> #[trigger] votes_on(self.signatures.insert((h, signer)), other)
                    == votes_on(self.signatures, other),
    {
        let test = |vote: (HashedRequest, AccountId)| vote.0 == h;
        self.signatures.lemma_len_filter(test);
        assert(votes_on(self.signatures.insert((h, signer)), h) =~= votes_on(
            self.signatures,
            h,
        ).insert((h, signer)));
        assert forall|other: HashedRequest| other != h implies #[trigger] votes_on(
            self.signatures.insert((h, signer)),
            other,
        ) == votes_on(self.signatures, other) by {
            assert(votes_on(self.signatures.insert((h, signer)), other) =~= votes_on(
                self.signatures,
                other,
            ));
        }
    }

    /// Recording a vote keeps the ledger valid.
    pub proof fn lemma_record_vote_valid(self, h: HashedRequest, signer: AccountId)
        requires
            self.valid(),
        ensures
            self.record_vote(h, signer) matches Ok((next, _)) ==> next.valid(),
    {
        if let Ok((next, VoteAction::Counted { new_count })) = self.record_vote(h, signer) {
            self.lemma_vote_counts(h, signer);
            assert(self.votes(h) == self.signature_count(h));
            assert forall|other: HashedRequest| #[trigger]
                next.pending.contains_key(other) implies next.pending[other].signature_count
                == next.votes(other) by {
                if other != h {
                    assert(self.pending.contains_key(other));
                    assert(votes_on(next.signatures, other) == votes_on(self.signatures, other));
                }
            }
            assert forall|other: HashedRequest|
                !next.pending.contains_key(other) && !next.processed.contains(
                    other,
                ) implies #[trigger] next.votes(other) == 0 by {
                assert(votes_on(next.signatures, other) == votes_on(self.signatures, other));
                assert(self.votes(other) == 0);
            }
        }
    }

    /// Carrying out a request keeps the ledger valid.
    pub proof fn lemma_finalize_valid(self, h: HashedRequest)
        requires
            self.valid(),
        ensures
            self.finalize(h).valid(),
    {
        let next = self.finalize(h);
        assert forall|other: HashedRequest| #[trigger]
            next.pending.contains_key(other) implies next.pending[other].signature_count
            == next.votes(other) by {
            assert(self.pending.contains_key(other));
        }
        assert forall|other: HashedRequest|
            !next.pending.contains_key(other) && !next.processed.contains(
                other,
            ) implies #[trigger] next.votes(other) == 0 by {
            assert(self.votes(other) == 0);
        }
    }
}

/// The ledger as it is stored.
#[derive(Debug, Clone)]
pub struct RequestLedger {
    pending_requests: Table<HashedRequest, Request>,
    signatures: Table<(HashedRequest, AccountId), ()>,
    processed_requests: Table<HashedRequest, ()>,
}

impl View for RequestLedger {
    type V = LedgerState;

    closed spec fn view(&self) -> LedgerState {
        LedgerState {
            pending: self.pending_requests@,
            signatures: self.signatures@.dom(),
            processed: self.processed_requests@.dom(),
        }
    }
}

impl RequestLedger {
    /// Whether the stored tables are in order and the ledger is valid.
    pub closed spec fn wf(&self) -> bool {
        &&& self.pending_requests.wf()
        &&& self.signatures.wf()
        &&& self.processed_requests.wf()
        &&& self@.valid()
    }

    /// A well-formed ledger is valid.
    pub proof fn lemma_wf_valid(&self)
        requires
            self.wf(),
        ensures
            self@.valid(),
    {
    }

    /// The ledger before any vote.
    pub fn new() -> (ledger: Self)
        ensures
            ledger.wf(),
            ledger@ == LedgerState::empty(),
    {
        let ledger = RequestLedger {
            pending_requests: Table::new(),
            signatures: Table::new(),
            processed_requests: Table::new(),
        };
        assert(ledger@ =~= LedgerState::empty());
        assert forall|h: HashedRequest| #[trigger] ledger@.votes(h) == 0 by {
            assert(votes_on(ledger@.signatures, h) =~= Set::empty());
        }
        ledger
    }

    /// Where the request with hash `h` stands.
    pub fn status(&self, h: &HashedRequest) -> (status: RequestStatus)
        requires
            self.wf(),
        ensures
            status == self@.status(*h),
    {
        if self.processed_requests.contains(h) {
            RequestStatus::Processed
        } else {
            match self.pending_requests.get(h) {
                Some(request) => RequestStatus::Pending {
                    collected_signatures: #[verifier::truncate]
                    (request.signature_count as u32),
                },
                None => RequestStatus::RequestHashNotKnown,
            }
        }
    }

    /// Records the vote of `signer` on `h`. A vote on a processed request, or
    /// a second vote of the same signer, changes nothing and is no error.
    pub fn record_vote(&mut self, h: HashedRequest, signer: AccountId) -> (r: Result<
        VoteAction,
        MostError,
    >)
        requires
            old(self).wf(),
        ensures
            final(self).wf(),
            (match old(self)@.record_vote(h, signer) {
                Ok((next, action)) => r == Ok::<VoteAction, MostError>(action) && final(self)@
                    == next,
                Err(e) => r == Err::<VoteAction, MostError>(e) && final(self)@ == old(self)@,
            }),
    {
        proof {
            old(self)@.lemma_record_vote_valid(h, signer);
        }
        if self.processed_requests.contains(&h) {
            return Ok(VoteAction::AlreadyProcessed);
        }
        if self.signatures.contains(&(h, signer)) {
            return Ok(VoteAction::AlreadySigned);
        }
        let count = match self.pending_requests.get(&h) {
            Some(request) => request.signature_count,
            None => 0,
        };
        match count.checked_add(1) {
            None => Err(MostError::Arithmetic),
            Some(new_count) => {
                self.signatures.insert((h, signer), ());
                self.pending_requests.insert(h, Request { signature_count: new_count });
                assert(self@ =~= old(self)@.record_vote(h, signer)->Ok_0.0);
                Ok(VoteAction::Counted { new_count })
            },
        }
    }

    /// Marks the request with hash `h` as carried out and ends its pending
    /// state. The votes on it stay on record.
    pub fn finalize(&mut self, h: HashedRequest)
        requires
            old(self).wf(),
        ensures
            final(self).wf(),
            final(self)@ == old(self)@.finalize(h),
    {
        proof {
            old(self)@.lemma_finalize_valid(h);
        }
        self.processed_requests.insert(h, ());
        self.pending_requests.remove(&h);
        assert(self@ =~= old(self)@.finalize(h));
    }
}

} // verus!

//! The relayer's event handler: what a guardian makes of the events that it
//! reads from the other chain's bridge.

use crate::error::MostError;
use crate::hashing::{hash_request_data, request_hash, HashedRequest};
use vstd::prelude::*;

verus! {

/// A transfer request announced by the other chain's bridge.
#[derive(Debug, Clone, Copy, PartialEq, Eq)]
pub struct CrosschainTransferRequestFilter {
    pub committee_id: u128,
    pub dest_token_address: [u8; 32],
    pub amount: u128,
    pub dest_receiver_address: [u8; 32],
    pub request_nonce: u128,
}

/// An event of the other chain's bridge.
#[derive(Debug, Clone, Copy, PartialEq, Eq)]
pub enum MostEvents {
    /// A transfer towards this chain was requested.
    CrosschainTransferRequestFilter(CrosschainTransferRequestFilter),
    /// A request was carried out on the other chain.
    RequestProcessedFilter { request_hash: HashedRequest },
    /// A guardian's vote was counted on the other chain.
    RequestSignedFilter { request_hash: HashedRequest },
}

/// A guardian's vote on an inbound request, as it is submitted to the bridge.
#[derive(Debug, Clone, Copy, PartialEq, Eq)]
pub struct Vote {
    pub request_hash: HashedRequest,
    pub committee_id: u128,
    pub dest_token_address: [u8; 32],
    pub amount: u128,
    pub dest_receiver_address: [u8; 32],
    pub request_nonce: u128,
}

/// Why a call of the bridge failed.
#[derive(Debug, Clone, PartialEq, Eq)]
pub enum AzeroContractError {
    /// The bridge refused the call.
    Refused(MostError),
    /// The call did not reach the bridge, or its answer was lost.
    Transport(String),
}

/// Why the handler gave up.
#[derive(Debug, Clone, PartialEq, Eq)]
pub enum EthHandlerError {
    /// A call of the bridge failed.
    AzeroContract(AzeroContractError),
    /// A value could not be sent because the channel was closed.
    Send(u32),
}

/// A signal to the relayer's tasks to stop.
#[derive(Debug, Clone, Copy, PartialEq, Eq)]
pub enum CircuitBreakerEvent {
    /// The tasks may be started again after a pause.
    Transient,
    /// The relayer must not go on before an operator has looked into it.
    Fatal,
}

/// What the supervisor does when the circuit was broken.
#[derive(Debug, Clone, Copy, PartialEq, Eq)]
pub enum Reaction {
    /// Start the tasks again after this pause.
    Restart { cooldown_ms: u64 },
    /// Stop the relayer.
    Exit,
}

/// How a task of the relayer came to its end.
#[derive(Debug, Clone, Copy, PartialEq, Eq)]
pub enum TaskEnd {
    /// The task had nothing more to do.
    Finished,
    /// The task gave up on a failure of its own.
    Failed,
    /// The task broke the circuit with this signal.
    Broken(CircuitBreakerEvent),
}

impl TaskEnd {
    /// The signal that this end sends to the other tasks: the signal that
    /// broke the circuit, else one after which the tasks may start again.
    pub open spec fn signal_of(self) -> CircuitBreakerEvent {
        match self {
            TaskEnd::Broken(event) => event,
            _ => CircuitBreakerEvent::Transient,
        }
    }

    /// Picks the signal that this end sends to the other tasks.
    pub fn signal(self) -> (event: CircuitBreakerEvent)
        ensures
            event == self.signal_of(),
    {
        match self {
            TaskEnd::Broken(event) => event,
            _ => CircuitBreakerEvent::Transient,
        }
    }
}

impl CircuitBreakerEvent {
    /// The supervisor's reaction: a fatal signal stops the relayer, any
    /// other has the tasks started again after the cooldown.
    pub open spec fn reaction_to(self, cooldown_ms: u64) -> Reaction {
        match self {
            CircuitBreakerEvent::Fatal => Reaction::Exit,
            CircuitBreakerEvent::Transient => Reaction::Restart { cooldown_ms },
        }
    }

    /// Decides what the supervisor does on this signal.
    pub fn reaction(self, cooldown_ms: u64) -> (reaction: Reaction)
        ensures
            reaction == self.reaction_to(cooldown_ms),
    {
        match self {
            CircuitBreakerEvent::Fatal => Reaction::Exit,
            CircuitBreakerEvent::Transient => Reaction::Restart { cooldown_ms },
        }
    }
}

/// How often, and after what pause, a failed call is tried again.
#[derive(Debug, Clone, Copy, PartialEq, Eq)]
pub struct RetryPolicy {
    /// The number of times that a call is made at most.
    pub max_attempts: u32,
    /// The pause after the first failed call, in milliseconds.
    pub base_delay_ms: u64,
}

/// What the handler does after a call of the bridge.
#[derive(Debug, Clone, PartialEq, Eq)]
pub enum Step {
    /// The event is done with.
    Handled,
    /// Make the call again after this pause.
    Retry { delay_ms: u64 },
    /// Give up and report the failure to the supervisor.
    Surface(EthHandlerError),
    /// Stop handling the batch, without acknowledging it, and send this signal.
    Break(CircuitBreakerEvent),
}

/// The vote on `request` with the given hash.
pub open spec fn vote_of(request: CrosschainTransferRequestFilter, request_hash: HashedRequest)
    -> Vote {
    Vote {
        request_hash,
        committee_id: request.committee_id,
        dest_token_address: request.dest_token_address,
        amount: request.amount,
        dest_receiver_address: request.dest_receiver_address,
        request_nonce: request.request_nonce,
    }
}

/// The vote that an event calls for: a transfer request calls for a vote
/// with the hash of its five fields, any other event for none.
pub open spec fn vote_for(event: MostEvents) -> Option<Vote> {
    match event {
        MostEvents::CrosschainTransferRequestFilter(request) => Some(
            vote_of(
                request,
                request_hash(
                    request.committee_id,
                    request.dest_token_address,
                    request.amount,
                    request.dest_receiver_address,
                    request.request_nonce,
                ),
            ),
        ),
        _ => None,
    }
}

/// The votes that a block's events call for, in the order of the events.
pub open spec fn votes_for(events: Seq<MostEvents>) -> Seq<Vote>
    decreases events.len(),
{
    if events.len() == 0 {
        seq![]
    } else {
        match vote_for(events.last()) {
            Some(vote) => votes_for(events.drop_last()).push(vote),
            None => votes_for(events.drop_last()),
        }
    }
}

/// Whether a failure will come again however often the call is made: the
/// vote's hash does not match its data, or the guardian is not in the committee.
pub open spec fn is_permanent(error: AzeroContractError) -> bool {
    error == AzeroContractError::Refused(MostError::HashDoesNotMatchData) || error
        == AzeroContractError::Refused(MostError::NotInCommittee)
}

/// The pause before the call after failed call number `attempt` (counted
/// from zero): the base pause doubled `attempt` times, or the longest pause
/// that can be written where that does not fit.
pub open spec fn backoff_delay(base_delay_ms: u64, attempt: u32) -> u64
    decreases attempt,
{
    if attempt == 0 {
        base_delay_ms
    } else if 2 * backoff_delay(base_delay_ms, (attempt - 1) as u32) > u64::MAX {
        u64::MAX
    } else {
        (2 * backoff_delay(base_delay_ms, (attempt - 1) as u32)) as u64
    }
}

/// What the handler does after call number `attempt` (counted from zero) of
/// the bridge came back with `outcome`.
pub open spec fn step_after(
    outcome: Result<(), AzeroContractError>,
    attempt: u32,
    policy: RetryPolicy,
) -> Step {
    match outcome {
        Ok(()) => Step::Handled,
        Err(error) => if is_permanent(error) {
            Step::Break(CircuitBreakerEvent::Fatal)
        } else if attempt + 1 < policy.max_attempts {
            Step::Retry { delay_ms: backoff_delay(policy.base_delay_ms, attempt) }
        } else {
            Step::Surface(EthHandlerError::AzeroContract(error))
        },
    }
}

/// Builds the vote on `request` with the given hash.
pub fn vote_with_hash(
    request: &CrosschainTransferRequestFilter,
    request_hash: HashedRequest,
) -> (vote: Vote)
    ensures
        vote == vote_of(*request, request_hash),
{
    Vote {
        request_hash,
        committee_id: request.committee_id,
        dest_token_address: request.dest_token_address,
        amount: request.amount,
        dest_receiver_address: request.dest_receiver_address,
        request_nonce: request.request_nonce,
    }
}

/// Makes the vote that an event calls for. For a transfer request the hash
/// is computed from exactly its five fields.
pub fn handle_event(event: &MostEvents) -> (vote: Option<Vote>)
    ensures
        vote == vote_for(*event),
{
    match event {
        MostEvents::CrosschainTransferRequestFilter(request) => {
            let request_hash = hash_request_data(
                request.committee_id,
                request.dest_token_address,
                request.amount,
                request.dest_receiver_address,
                request.request_nonce,
            );
            Some(vote_with_hash(request, request_hash))
        },
        _ => None,
    }
}

/// Makes the votes that the events of a block call for, in the order of the
/// events. The block is acknowledged once all of them were submitted.
pub fn handle_events(events: &Vec<MostEvents>) -> (votes: Vec<Vote>)
    ensures
        votes@ == votes_for(events@),
{
    let mut votes: Vec<Vote> = Vec::new();
    let mut i: usize = 0;
    while i < events.len()
        invariant
            i <= events@.len(),
            votes@ == votes_for(events@.take(i as int)),
        decreases events@.len() - i,
    {
        proof {
            assert(events@.take(i + 1).drop_last() == events@.take(i as int));
            assert(events@.take(i + 1).last() == events@[i as int]);
        }
        match handle_event(&events[i]) {
            Some(vote) => {
                votes.push(vote);
            },
            None => {},
        }
        i = i + 1;
    }
    assert(events@.take(events@.len() as int) == events@);
    votes
}

/// The relayer's handler of the other chain's events.
#[derive(Debug, Clone, Copy, PartialEq, Eq)]
pub struct EthHandler;

impl EthHandler {
    /// Computes the pause before the call after failed call number `attempt`.
    pub fn backoff(base_delay_ms: u64, attempt: u32) -> (delay_ms: u64)
        ensures
            delay_ms == backoff_delay(base_delay_ms, attempt),
    {
        let mut delay_ms: u64 = base_delay_ms;
        let mut i: u32 = 0;
        while i < attempt
            invariant
                i <= attempt,
                delay_ms == backoff_delay(base_delay_ms, i),
            decreases attempt - i,
        {
            delay_ms = match delay_ms.checked_mul(2) {
                Some(doubled) => doubled,
                None => u64::MAX,
            };
            i = i + 1;
        }
        delay_ms
    }

    /// Decides what to do after call number `attempt` (counted from zero) of
    /// the bridge came back with `outcome`. A call that the bridge accepted
    /// is done with, whether the vote was counted or had been cast before. A
    /// failure that will come again stops the batch. Any other failure is
    /// tried again, with a pause that doubles each time, until the allowed
    /// number of calls is made; then it is reported.
    pub fn next_step(
        outcome: Result<(), AzeroContractError>,
        attempt: u32,
        policy: &RetryPolicy,
    ) -> (step: Step)
        ensures
            step == step_after(outcome, attempt, *policy),
    {
        match outcome {
            Ok(()) => Step::Handled,
            Err(error) => {
                let permanent = match &error {
                    AzeroContractError::Refused(MostError::HashDoesNotMatchData) => true,
                    AzeroContractError::Refused(MostError::NotInCommittee) => true,
                    _ => false,
                };
                if permanent {
                    Step::Break(CircuitBreakerEvent::Fatal)
                } else if attempt < u32::MAX && attempt + 1 < policy.max_attempts {
                    Step::Retry { delay_ms: EthHandler::backoff(policy.base_delay_ms, attempt) }
                } else {
                    Step::Surface(EthHandlerError::AzeroContract(error))
                }
            },
        }
    }
}

} // verus!

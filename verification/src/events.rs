//! What the bridge announces, and what it asks its host chain to do.

use crate::hashing::{AccountId, HashedRequest};
use vstd::prelude::*;

verus! {

/// An outbound transfer was accepted and awaits relaying.
#[derive(Debug, Clone, Copy, PartialEq, Eq)]
pub struct CrosschainTransferRequest {
    pub committee_id: u128,
    pub dest_token_address: [u8; 32],
    pub amount: u128,
    pub dest_receiver_address: [u8; 32],
    pub request_nonce: u128,
}

/// An inbound request reached its quorum and was carried out.
#[derive(Debug, Clone, Copy, PartialEq, Eq)]
pub struct RequestProcessed {
    pub request_hash: HashedRequest,
    pub dest_token_address: [u8; 32],
}

/// A vote on an inbound request was counted.
#[derive(Debug, Clone, Copy, PartialEq, Eq)]
pub struct RequestSigned {
    pub request_hash: HashedRequest,
    pub signer: AccountId,
}

/// The bridge was halted or resumed.
#[derive(Debug, Clone, Copy, PartialEq, Eq)]
pub struct HaltedStateChanged {
    pub previous_state: bool,
    pub new_state: bool,
    pub caller: AccountId,
}

/// A vote arrived for a request that had been carried out before.
#[derive(Debug, Clone, Copy, PartialEq, Eq)]
pub struct SignedProcessedRequest {
    pub request_hash: HashedRequest,
    pub signer: AccountId,
}

/// The owner named a successor.
#[derive(Debug, Clone, Copy, PartialEq, Eq)]
pub struct TransferOwnershipInitiated {
    pub new_owner: AccountId,
}

/// The named successor became the owner.
#[derive(Debug, Clone, Copy, PartialEq, Eq)]
pub struct TransferOwnershipAccepted {
    pub new_owner: AccountId,
}

/// A signer voted a second time on the same request.
#[derive(Debug, Clone, Copy, PartialEq, Eq)]
pub struct RequestAlreadySigned {
    pub request_hash: HashedRequest,
    pub signer: AccountId,
}

/// Any event of the bridge.
#[derive(Debug, Clone, Copy, PartialEq, Eq)]
pub enum BridgeEvent {
    CrosschainTransferRequest(CrosschainTransferRequest),
    RequestProcessed(RequestProcessed),
    RequestSigned(RequestSigned),
    HaltedStateChanged(HaltedStateChanged),
    SignedProcessedRequest(SignedProcessedRequest),
    TransferOwnershipInitiated(TransferOwnershipInitiated),
    TransferOwnershipAccepted(TransferOwnershipAccepted),
    RequestAlreadySigned(RequestAlreadySigned),
}

/// One thing that the host chain has to do for an operation that the bridge
/// accepted. The host performs the actions of an operation in their order.
/// Where an action other than `TryTransfer` fails, the host undoes the whole
/// operation, the change to the bridge included.
#[derive(Debug, Clone, Copy, PartialEq, Eq)]
pub enum Action {
    /// Move `amount` of `token` from `from` into the bridge, then burn it there.
    Burn { token: AccountId, from: AccountId, amount: u128 },
    /// Mint `amount` of `token` to `to`.
    Mint { token: AccountId, to: AccountId, amount: u128 },
    /// Pay `amount` of the native currency to `to`.
    Transfer { to: AccountId, amount: u128 },
    /// Pay `amount` of the native currency to `to`; a failure is ignored.
    TryTransfer { to: AccountId, amount: u128 },
    /// Pay `amount` of `token`, held by the bridge, to `to`.
    TransferToken { token: AccountId, to: AccountId, amount: u128 },
    /// Replace the bridge's code by the code with this hash.
    SetCode { code_hash: [u8; 32] },
    /// Announce an event.
    Emit(BridgeEvent),
}

} // verus!

//! The bridge as a state machine: what the bridge holds, what must always be
//! true of it, and what each operation makes of it.

use crate::committee::{committee_verdict, is_member, registry_valid, CommitteeState};
use crate::error::MostError;
use crate::events::{
    Action, BridgeEvent, CrosschainTransferRequest, HaltedStateChanged, RequestAlreadySigned,
    RequestProcessed, RequestSigned, SignedProcessedRequest, TransferOwnershipAccepted,
    TransferOwnershipInitiated,
};
use crate::fees::{fee_for, outstanding, quoted_gas_price};
use crate::hashing::{AccountId, HashedRequest};
use crate::ledger::{LedgerState, RequestStatus, VoteAction};
use crate::ownable::{Ownable2StepData, Ownable2StepError};
use vstd::prelude::*;

verus! {

/// Whether `address` is the zero address, which no request may name as receiver.
pub open spec fn is_zero_address(address: [u8; 32]) -> bool {
    forall|i: int| 0 <= i < 32 ==> address[i] == 0
}

/// The main data of the bridge.
#[derive(Debug, Clone, Copy)]
pub struct Data {
    /// The nonce of the next outbound request.
    pub request_nonce: u128,
    /// The id of the active committee.
    pub committee_id: u128,
    /// The subsidy paid to the receiver of each inbound transfer.
    pub pocket_money: u128,
    /// The funds that subsidies are paid from.
    pub pocket_money_balance: u128,
    /// The gas that relaying one request uses on the other chain.
    pub relay_gas_usage: u128,
    /// The lowest gas price that an oracle's answer is taken as.
    pub min_gas_price: u128,
    /// The highest gas price that an oracle's answer is taken as.
    pub max_gas_price: u128,
    /// The gas price used where the oracle gives none.
    pub default_gas_price: u128,
    /// The gas price oracle, if one is configured.
    pub gas_price_oracle: Option<AccountId>,
    /// Whether the bridge is halted.
    pub is_halted: bool,
}

/// Everything that the bridge holds.
#[verifier::ext_equal]
pub struct State {
    pub data: Data,
    /// The owner and the successor that the owner named.
    pub ownable: Ownable2StepData,
    /// Every committee that was set, by its id.
    pub committees: Seq<CommitteeState>,
    /// The votes on inbound requests and the requests carried out.
    pub ledger: LedgerState,
    /// The token on the other chain that each supported token is bridged to.
    pub supported_pairs: Map<[u8; 32], [u8; 32]>,
    /// The base fees collected while each committee was active.
    pub collected: Map<u128, u128>,
    /// What each member was paid of its committee's fees.
    pub paid_out: Map<(AccountId, u128), u128>,
}

/// The refund owed to a sender who transferred more than the fee.
pub open spec fn refund(caller: AccountId, surplus: int) -> Seq<Action> {
    if surplus > 0 {
        seq![Action::Transfer { to: caller, amount: surplus as u128 }]
    } else {
        seq![]
    }
}

/// The subsidy paid along with a mint, where the funds cover it.
pub open spec fn subsidy(pays: bool, receiver: AccountId, pocket_money: u128) -> Seq<Action> {
    if pays {
        seq![Action::TryTransfer { to: receiver, amount: pocket_money }]
    } else {
        seq![]
    }
}

impl State {
    /// Whether `account` belongs to the committee with this id.
    pub open spec fn is_in_committee(self, committee_id: u128, account: AccountId) -> bool {
        is_member(self.committees, committee_id, account)
    }

    /// The quorum of the active committee.
    pub open spec fn threshold(self) -> u128 {
        self.committees[self.data.committee_id as int].threshold
    }

    /// The fees collected while the committee with this id was active.
    pub open spec fn collected_rewards(self, committee_id: u128) -> u128 {
        if self.collected.contains_key(committee_id) {
            self.collected[committee_id]
        } else {
            0
        }
    }

    /// What this member was paid of the fees of the committee with this id.
    pub open spec fn paid_out_rewards(self, committee_id: u128, member_id: AccountId) -> u128 {
        if self.paid_out.contains_key((member_id, committee_id)) {
            self.paid_out[(member_id, committee_id)]
        } else {
            0
        }
    }

    /// What each member of the committee with this id is entitled to: an
    /// equal part of the collected fees, rounded down.
    pub open spec fn member_share(self, committee_id: u128) -> u128 {
        (self.collected_rewards(committee_id) / self.committees[committee_id as int].members.len()
            as u128) as u128
    }

    /// What this member may still claim of the fees of the committee with this id.
    pub open spec fn outstanding_rewards(self, committee_id: u128, member_id: AccountId) -> Result<
        u128,
        MostError,
    > {
        if !self.is_in_committee(committee_id, member_id) {
            Err(MostError::NotInCommittee)
        } else {
            Ok(
                outstanding(
                    self.member_share(committee_id),
                    self.paid_out_rewards(committee_id, member_id),
                ),
            )
        }
    }

    /// The base fee that a sender is charged, given what the oracle answered
    /// (`None` where it was not asked or the query failed) and the time.
    pub open spec fn base_fee(self, answer: Option<(u128, u64)>, now: u64) -> Result<
        u128,
        MostError,
    > {
        fee_for(
            quoted_gas_price(
                self.data.gas_price_oracle,
                answer,
                now,
                self.data.min_gas_price,
                self.data.max_gas_price,
                self.data.default_gas_price,
            ),
            self.data.relay_gas_usage,
        )
    }

    /// Succeeds exactly when `caller` is the owner.
    pub open spec fn check_owner(self, caller: AccountId) -> Result<(), MostError> {
        match self.ownable.check_owner(caller) {
            Ok(()) => Ok(()),
            Err(e) => Err(MostError::Ownable(e)),
        }
    }

    /// Succeeds exactly when `caller` may change what only the owner of a
    /// halted bridge may change: the pairs and the committee.
    pub open spec fn check_owner_of_halted(self, caller: AccountId) -> Result<(), MostError> {
        match self.check_owner(caller) {
            Err(e) => Err(e),
            Ok(()) => if !self.data.is_halted {
                Err(MostError::HaltRequired)
            } else {
                Ok(())
            },
        }
    }

    /// What must be true of the bridge at all times.
    ///
    /// The registry holds valid committees and the active one is the last;
    /// the ledger is valid; and a payout is on record only for a member of
    /// the committee, and is no more than the member's share.
    pub open spec fn inv(self) -> bool {
        &&& registry_valid(self.committees)
        &&& self.data.committee_id == self.committees.len() - 1
        &&& self.ledger.valid()
        &&& forall|member_id: AccountId, committee_id: u128| #[trigger]
            self.paid_out.contains_key((member_id, committee_id)) ==> self.is_in_committee(
                committee_id,
                member_id,
            ) && self.paid_out[(member_id, committee_id)] <= self.member_share(committee_id)
    }

    /// The bridge as it is set up: halted, with the given committee as
    /// committee 0, no votes, no pairs and no fees.
    pub open spec fn init(
        committee: Seq<AccountId>,
        signature_threshold: u128,
        pocket_money: u128,
        relay_gas_usage: u128,
        min_gas_price: u128,
        max_gas_price: u128,
        default_gas_price: u128,
        gas_price_oracle: Option<AccountId>,
        owner: AccountId,
    ) -> Result<State, MostError> {
        match committee_verdict(committee, signature_threshold) {
            Err(e) => Err(e),
            Ok(()) => Ok(
                State {
                    data: Data {
                        request_nonce: 0,
                        committee_id: 0,
                        pocket_money,
                        pocket_money_balance: 0,
                        relay_gas_usage,
                        min_gas_price,
                        max_gas_price,
                        default_gas_price,
                        gas_price_oracle,
                        is_halted: true,
                    },
                    ownable: Ownable2StepData { owner, pending_owner: None },
                    committees: seq![
                        CommitteeState { members: committee, threshold: signature_threshold },
                    ],
                    ledger: LedgerState::empty(),
                    supported_pairs: Map::empty(),
                    collected: Map::empty(),
                    paid_out: Map::empty(),
                },
            ),
        }
    }

    /// An outbound transfer of `amount` of the token `src_token_address` to
    /// `dest_receiver_address`, sent by `caller` with `transferred_value`
    /// attached to pay the base fee.
    pub open spec fn send_request(
        self,
        caller: AccountId,
        transferred_value: u128,
        answer: Option<(u128, u64)>,
        now: u64,
        src_token_address: [u8; 32],
        amount: u128,
        dest_receiver_address: [u8; 32],
    ) -> Result<(State, Seq<Action>), MostError> {
        let committee_id = self.data.committee_id;
        if self.data.is_halted {
            Err(MostError::IsHalted)
        } else if is_zero_address(dest_receiver_address) {
            Err(MostError::ZeroAddress)
        } else if amount == 0 {
            Err(MostError::ZeroTransferAmount)
        } else if !self.supported_pairs.contains_key(src_token_address) {
            Err(MostError::UnsupportedPair)
        } else {
            match self.base_fee(answer, now) {
                Err(e) => Err(e),
                Ok(fee) => if transferred_value < fee {
                    Err(MostError::BaseFeeTooLow)
                } else if self.collected_rewards(committee_id) + fee > u128::MAX {
                    Err(MostError::Arithmetic)
                } else if self.data.request_nonce == u128::MAX {
                    Err(MostError::Arithmetic)
                } else {
                    Ok(
                        (
                            State {
                                data: Data {
                                    request_nonce: (self.data.request_nonce + 1) as u128,
                                    ..self.data
                                },
                                collected: self.collected.insert(
                                    committee_id,
                                    (self.collected_rewards(committee_id) + fee) as u128,
                                ),
                                ..self
                            },
                            seq![Action::Burn { token: src_token_address, from: caller, amount }]
                                + refund(caller, transferred_value - fee) + seq![
                                Action::Emit(
                                    BridgeEvent::CrosschainTransferRequest(
                                        CrosschainTransferRequest {
                                            committee_id,
                                            dest_token_address: self.supported_pairs[
                                                src_token_address
                                            ],
                                            amount,
                                            dest_receiver_address,
                                            request_nonce: self.data.request_nonce,
                                        },
                                    ),
                                ),
                            ],
                        ),
                    )
                },
            }
        }
    }

    /// The vote of `caller` on the inbound request with hash `request_hash`,
    /// where `computed_hash` is the hash of the request's data.
    pub open spec fn receive_request_with(
        self,
        caller: AccountId,
        request_hash: HashedRequest,
        computed_hash: HashedRequest,
        committee_id: u128,
        dest_token_address: [u8; 32],
        amount: u128,
        dest_receiver_address: [u8; 32],
    ) -> Result<(State, Seq<Action>), MostError> {
        if self.data.is_halted {
            Err(MostError::IsHalted)
        } else if !self.is_in_committee(committee_id, caller) {
            Err(MostError::NotInCommittee)
        } else if request_hash != computed_hash {
            Err(MostError::HashDoesNotMatchData)
        } else {
            match self.ledger.record_vote(request_hash, caller) {
                Err(e) => Err(e),
                Ok((_, VoteAction::AlreadyProcessed)) => Ok(
                    (
                        self,
                        seq![
                            Action::Emit(
                                BridgeEvent::SignedProcessedRequest(
                                    SignedProcessedRequest { request_hash, signer: caller },
                                ),
                            ),
                        ],
                    ),
                ),
                Ok((_, VoteAction::AlreadySigned)) => Ok(
                    (
                        self,
                        seq![
                            Action::Emit(
                                BridgeEvent::RequestAlreadySigned(
                                    RequestAlreadySigned { request_hash, signer: caller },
                                ),
                            ),
                        ],
                    ),
                ),
                Ok((ledger, VoteAction::Counted { new_count })) => {
                    let signed = Action::Emit(
                        BridgeEvent::RequestSigned(RequestSigned { request_hash, signer: caller }),
                    );
                    if new_count >= self.threshold() {
                        let pays = self.data.pocket_money_balance >= self.data.pocket_money;
                        Ok(
                            (
                                State {
                                    data: Data {
                                        pocket_money_balance: if pays {
                                            (self.data.pocket_money_balance
                                                - self.data.pocket_money) as u128
                                        } else {
                                            self.data.pocket_money_balance
                                        },
                                        ..self.data
                                    },
                                    ledger: ledger.finalize(request_hash),
                                    ..self
                                },
                                seq![
                                    signed,
                                    Action::Mint {
                                        token: dest_token_address,
                                        to: dest_receiver_address,
                                        amount,
                                    },
                                ] + subsidy(pays, dest_receiver_address, self.data.pocket_money)
                                    + seq![
                                    Action::Emit(
                                        BridgeEvent::RequestProcessed(
                                            RequestProcessed { request_hash, dest_token_address },
                                        ),
                                    ),
                                ],
                            ),
                        )
                    } else {
                        Ok((State { ledger, ..self }, seq![signed]))
                    }
                },
            }
        }
    }

    /// The vote of `caller` on the inbound request with hash `request_hash`
    /// and the given data.
    pub open spec fn receive_request(
        self,
        caller: AccountId,
        request_hash: HashedRequest,
        committee_id: u128,
        dest_token_address: [u8; 32],
        amount: u128,
        dest_receiver_address: [u8; 32],
        request_nonce: u128,
    ) -> Result<(State, Seq<Action>), MostError> {
        self.receive_request_with(
            caller,
            request_hash,
            crate::hashing::request_hash(
                committee_id,
                dest_token_address,
                amount,
                dest_receiver_address,
                request_nonce,
            ),
            committee_id,
            dest_token_address,
            amount,
            dest_receiver_address,
        )
    }

    /// The payout of what `member_id` may still claim of the fees of the
    /// committee with id `committee_id`. Anyone may ask for it.
    pub open spec fn payout_rewards(self, committee_id: u128, member_id: AccountId) -> Result<
        (State, Seq<Action>),
        MostError,
    > {
        if self.data.is_halted {
            Err(MostError::IsHalted)
        } else {
            match self.outstanding_rewards(committee_id, member_id) {
                Err(e) => Err(e),
                Ok(amount) => if amount > 0 {
                    Ok(
                        (
                            State {
                                paid_out: self.paid_out.insert(
                                    (member_id, committee_id),
                                    self.member_share(committee_id),
                                ),
                                ..self
                            },
                            seq![Action::Transfer { to: member_id, amount }],
                        ),
                    )
                } else {
                    Ok((self, seq![]))
                },
            }
        }
    }

    /// The funds for subsidies raised by `transferred_value`.
    pub open spec fn fund_pocket_money(self, transferred_value: u128) -> Result<State, MostError> {
        if self.data.pocket_money_balance + transferred_value > u128::MAX {
            Err(MostError::Arithmetic)
        } else {
            Ok(
                State {
                    data: Data {
                        pocket_money_balance: (self.data.pocket_money_balance
                            + transferred_value) as u128,
                        ..self.data
                    },
                    ..self
                },
            )
        }
    }

    /// The owner replaces the bridge's code.
    pub open spec fn set_code(self, caller: AccountId, code_hash: [u8; 32]) -> Result<
        (State, Seq<Action>),
        MostError,
    > {
        match self.check_owner(caller) {
            Err(e) => Err(e),
            Ok(()) => Ok((self, seq![Action::SetCode { code_hash }])),
        }
    }

    /// The owner withdraws support for the token `from`, while the bridge is halted.
    pub open spec fn remove_pair(self, caller: AccountId, from: [u8; 32]) -> Result<
        State,
        MostError,
    > {
        match self.check_owner_of_halted(caller) {
            Err(e) => Err(e),
            Ok(()) => Ok(State { supported_pairs: self.supported_pairs.remove(from), ..self }),
        }
    }

    /// The owner declares that the token `from` is bridged to `to`, while the
    /// bridge is halted. `minter` is the account that may mint `from`, and
    /// `bridge` the bridge's own account.
    pub open spec fn add_pair(
        self,
        caller: AccountId,
        from: [u8; 32],
        to: [u8; 32],
        minter: AccountId,
        bridge: AccountId,
    ) -> Result<State, MostError> {
        match self.check_owner_of_halted(caller) {
            Err(e) => Err(e),
            Ok(()) => if minter != bridge {
                Err(MostError::NoMintPermission)
            } else {
                Ok(State { supported_pairs: self.supported_pairs.insert(from, to), ..self })
            },
        }
    }

    /// The owner names the gas price oracle.
    pub open spec fn set_gas_price_oracle(self, caller: AccountId, gas_price_oracle: AccountId)
        -> Result<State, MostError> {
        match self.check_owner(caller) {
            Err(e) => Err(e),
            Ok(()) => Ok(
                State {
                    data: Data { gas_price_oracle: Some(gas_price_oracle), ..self.data },
                    ..self
                },
            ),
        }
    }

    /// The owner sets a new committee, while the bridge is halted. The new
    /// committee's id is one more than that of the committee before it.
    pub open spec fn set_committee(
        self,
        caller: AccountId,
        committee: Seq<AccountId>,
        signature_threshold: u128,
    ) -> Result<State, MostError> {
        match self.check_owner_of_halted(caller) {
            Err(e) => Err(e),
            Ok(()) => match committee_verdict(committee, signature_threshold) {
                Err(e) => Err(e),
                Ok(()) => if self.committees.len() >= usize::MAX {
                    Err(MostError::Arithmetic)
                } else {
                    Ok(
                        State {
                            data: Data {
                                committee_id: (self.data.committee_id + 1) as u128,
                                ..self.data
                            },
                            committees: self.committees.push(
                                CommitteeState {
                                    members: committee,
                                    threshold: signature_threshold,
                                },
                            ),
                            ..self
                        },
                    )
                },
            },
        }
    }

    /// The owner halts or resumes the bridge. An event is announced only
    /// where the state changes.
    pub open spec fn set_halted(self, caller: AccountId, new_state: bool) -> Result<
        (State, Seq<Action>),
        MostError,
    > {
        match self.check_owner(caller) {
            Err(e) => Err(e),
            Ok(()) => if new_state != self.data.is_halted {
                Ok(
                    (
                        State { data: Data { is_halted: new_state, ..self.data }, ..self },
                        seq![
                            Action::Emit(
                                BridgeEvent::HaltedStateChanged(
                                    HaltedStateChanged {
                                        previous_state: self.data.is_halted,
                                        new_state,
                                        caller,
                                    },
                                ),
                            ),
                        ],
                    ),
                )
            } else {
                Ok((self, seq![]))
            },
        }
    }

    /// The owner pays out tokens that the bridge holds.
    pub open spec fn recover_psp22(
        self,
        caller: AccountId,
        token: AccountId,
        receiver: AccountId,
        amount: u128,
    ) -> Result<(State, Seq<Action>), MostError> {
        match self.check_owner(caller) {
            Err(e) => Err(e),
            Ok(()) => Ok((self, seq![Action::TransferToken { token, to: receiver, amount }])),
        }
    }

    /// The owner pays out native currency that the bridge holds.
    pub open spec fn recover_azero(self, caller: AccountId, receiver: AccountId, amount: u128)
        -> Result<(State, Seq<Action>), MostError> {
        match self.check_owner(caller) {
            Err(e) => Err(e),
            Ok(()) => Ok((self, seq![Action::Transfer { to: receiver, amount }])),
        }
    }

    /// The owner names `new_owner` as successor.
    pub open spec fn transfer_ownership(self, caller: AccountId, new_owner: AccountId) -> Result<
        (State, Seq<Action>),
        Ownable2StepError,
    > {
        match self.ownable.after_transfer(caller, new_owner) {
            Err(e) => Err(e),
            Ok(ownable) => Ok(
                (
                    State { ownable, ..self },
                    seq![
                        Action::Emit(
                            BridgeEvent::TransferOwnershipInitiated(
                                TransferOwnershipInitiated { new_owner },
                            ),
                        ),
                    ],
                ),
            ),
        }
    }

    /// The named successor `caller` becomes the owner.
    pub open spec fn accept_ownership(self, caller: AccountId) -> Result<
        (State, Seq<Action>),
        Ownable2StepError,
    > {
        match self.ownable.after_accept(caller) {
            Err(e) => Err(e),
            Ok(ownable) => Ok(
                (
                    State { ownable, ..self },
                    seq![
                        Action::Emit(
                            BridgeEvent::TransferOwnershipAccepted(
                                TransferOwnershipAccepted { new_owner: caller },
                            ),
                        ),
                    ],
                ),
            ),
        }
    }

    /// Where the request with hash `hashed_request` stands.
    pub open spec fn request_status(self, hashed_request: HashedRequest) -> RequestStatus {
        self.ledger.status(hashed_request)
    }
}

} // verus!

verus! {

/// Whether an operation that returns the actions for the host did what the
/// state machine says: on success the actions and the new state are the
/// expected ones, on failure the error is the expected one and nothing changed.
pub open spec fn effects_match<E>(
    r: Result<Vec<Action>, E>,
    expected: Result<(State, Seq<Action>), E>,
    before: State,
    after: State,
) -> bool {
    match expected {
        Ok((next, actions)) => r is Ok && r->Ok_0@ == actions && after == next,
        Err(e) => r == Err::<Vec<Action>, E>(e) && after == before,
    }
}

/// Whether an operation that asks nothing of the host did what the state
/// machine says.
pub open spec fn state_matches(
    r: Result<(), MostError>,
    expected: Result<State, MostError>,
    before: State,
    after: State,
) -> bool {
    match expected {
        Ok(next) => r == Ok::<(), MostError>(()) && after == next,
        Err(e) => r == Err::<(), MostError>(e) && after == before,
    }
}

impl State {
    /// A bridge that was just set up is in order.
    pub proof fn lemma_init_inv(
        committee: Seq<AccountId>,
        signature_threshold: u128,
        pocket_money: u128,
        relay_gas_usage: u128,
        min_gas_price: u128,
        max_gas_price: u128,
        default_gas_price: u128,
        gas_price_oracle: Option<AccountId>,
        owner: AccountId,
    )
        requires
            committee.len() <= usize::MAX,
        ensures
            State::init(
                committee,
                signature_threshold,
                pocket_money,
                relay_gas_usage,
                min_gas_price,
                max_gas_price,
                default_gas_price,
                gas_price_oracle,
                owner,
            ) matches Ok(s) ==> s.inv(),
    {
        if let Ok(s) = State::init(
            committee,
            signature_threshold,
            pocket_money,
            relay_gas_usage,
            min_gas_price,
            max_gas_price,
            default_gas_price,
            gas_price_oracle,
            owner,
        ) {
            assert(s.committees[0].valid());
            assert forall|h: HashedRequest| #[trigger] s.ledger.votes(h) == 0 by {
                assert(crate::ledger::votes_on(s.ledger.signatures, h) =~= Set::empty());
            }
        }
    }

    /// Sending a request keeps the bridge in order.
    pub proof fn lemma_send_request_inv(
        self,
        caller: AccountId,
        transferred_value: u128,
        answer: Option<(u128, u64)>,
        now: u64,
        src_token_address: [u8; 32],
        amount: u128,
        dest_receiver_address: [u8; 32],
    )
        requires
            self.inv(),
        ensures
            self.send_request(
                caller,
                transferred_value,
                answer,
                now,
                src_token_address,
                amount,
                dest_receiver_address,
            ) matches Ok((next, _)) ==> next.inv(),
    {
        if let Ok((next, _)) = self.send_request(
            caller,
            transferred_value,
            answer,
            now,
            src_token_address,
            amount,
            dest_receiver_address,
        ) {
            assert forall|member_id: AccountId, committee_id: u128| #[trigger]
                next.paid_out.contains_key((member_id, committee_id)) implies next.is_in_committee(
                committee_id,
                member_id,
            ) && next.paid_out[(member_id, committee_id)] <= next.member_share(committee_id) by {
                assert(self.paid_out.contains_key((member_id, committee_id)));
                assert(self.committees[committee_id as int].valid());
                crate::fees::lemma_share_grows(
                    self.collected_rewards(committee_id),
                    next.collected_rewards(committee_id),
                    self.committees[committee_id as int].members.len(),
                );
            }
        }
    }

    /// A vote keeps the bridge in order.
    pub proof fn lemma_receive_request_inv(
        self,
        caller: AccountId,
        request_hash: HashedRequest,
        computed_hash: HashedRequest,
        committee_id: u128,
        dest_token_address: [u8; 32],
        amount: u128,
        dest_receiver_address: [u8; 32],
    )
        requires
            self.inv(),
        ensures
            self.receive_request_with(
                caller,
                request_hash,
                computed_hash,
                committee_id,
                dest_token_address,
                amount,
                dest_receiver_address,
            ) matches Ok((next, _)) ==> next.inv(),
    {
        self.ledger.lemma_record_vote_valid(request_hash, caller);
        if let Ok((ledger, _)) = self.ledger.record_vote(request_hash, caller) {
            ledger.lemma_finalize_valid(request_hash);
        }
        if let Ok((next, _)) = self.receive_request_with(
            caller,
            request_hash,
            computed_hash,
            committee_id,
            dest_token_address,
            amount,
            dest_receiver_address,
        ) {
            assert forall|member_id: AccountId, id: u128| #[trigger]
                next.paid_out.contains_key((member_id, id)) implies next.is_in_committee(
                id,
                member_id,
            ) && next.paid_out[(member_id, id)] <= next.member_share(id) by {
                assert(self.paid_out.contains_key((member_id, id)));
            }
        }
    }

    /// A payout keeps the bridge in order.
    pub proof fn lemma_payout_rewards_inv(self, committee_id: u128, member_id: AccountId)
        requires
            self.inv(),
        ensures
            self.payout_rewards(committee_id, member_id) matches Ok((next, _)) ==> next.inv(),
    {
        if let Ok((next, _)) = self.payout_rewards(committee_id, member_id) {
            assert forall|m: AccountId, id: u128| #[trigger]
                next.paid_out.contains_key((m, id)) implies next.is_in_committee(id, m)
                && next.paid_out[(m, id)] <= next.member_share(id) by {
                if (m, id) != (member_id, committee_id) {
                    assert(self.paid_out.contains_key((m, id)));
                }
            }
        }
    }

    /// Setting a committee keeps the bridge in order.
    pub proof fn lemma_set_committee_inv(
        self,
        caller: AccountId,
        committee: Seq<AccountId>,
        signature_threshold: u128,
    )
        requires
            self.inv(),
            committee.len() <= usize::MAX,
        ensures
            self.set_committee(caller, committee, signature_threshold) matches Ok(next)
                ==> next.inv(),
    {
        if let Ok(next) = self.set_committee(caller, committee, signature_threshold) {
            assert forall|id: int| 0 <= id < next.committees.len() implies (
            #[trigger] next.committees[id]).valid() by {
                if id < self.committees.len() {
                    assert(next.committees[id] == self.committees[id]);
                    assert(self.committees[id].valid());
                }
            }
            assert forall|m: AccountId, id: u128| #[trigger]
                next.paid_out.contains_key((m, id)) implies next.is_in_committee(id, m)
                && next.paid_out[(m, id)] <= next.member_share(id) by {
                assert(self.paid_out.contains_key((m, id)));
                assert(next.committees[id as int] == self.committees[id as int]);
            }
        }
    }
}

} // verus!

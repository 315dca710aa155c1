//! The bridge itself: the stored state and the operations on it.
//!
//! An operation takes what the host chain knows (who calls, what value came
//! with the call, what the gas price oracle answered, the time) as plain
//! arguments, changes the bridge, and returns the actions that the host has
//! to perform. A refused operation changes nothing.

use crate::committee::CommitteeRegistry;
use crate::error::MostError;
use crate::events::{
    Action, BridgeEvent, CrosschainTransferRequest, HaltedStateChanged, RequestAlreadySigned,
    RequestProcessed, RequestSigned, SignedProcessedRequest, TransferOwnershipAccepted,
    TransferOwnershipInitiated,
};
use crate::fees::{base_fee, gas_price, outstanding_share};
use crate::hashing::{hash_request_data, AccountId, HashedRequest};
use crate::ledger::{RequestLedger, RequestStatus, VoteAction};
use crate::ownable::{Ownable2StepData, Ownable2StepError, Ownable2StepResult};
use crate::state::{effects_match, is_zero_address, state_matches, Data, State};
use crate::table::{Key, Table};
use vstd::prelude::*;

verus! {

/// The bridge.
#[derive(Debug, Clone)]
pub struct Most {
    data: Data,
    /// The owner and the successor that the owner named.
    ownable_data: Ownable2StepData,
    /// Every committee that was set, by its id.
    committees: CommitteeRegistry,
    /// The votes on inbound requests and the requests carried out.
    ledger: RequestLedger,
    /// The token on the other chain that each supported token is bridged to.
    supported_pairs: Table<[u8; 32], [u8; 32]>,
    /// The base fees collected while each committee was active.
    collected_committee_rewards: Table<u128, u128>,
    /// What each member was paid of its committee's fees.
    paid_out_member_rewards: Table<(AccountId, u128), u128>,
}

impl View for Most {
    type V = State;

    closed spec fn view(&self) -> State {
        State {
            data: self.data,
            ownable: self.ownable_data,
            committees: self.committees@,
            ledger: self.ledger@,
            supported_pairs: self.supported_pairs@,
            collected: self.collected_committee_rewards@,
            paid_out: self.paid_out_member_rewards@,
        }
    }
}

/// Whether `address` is the zero address.
fn zero_address(address: &[u8; 32]) -> (r: bool)
    ensures
        r == is_zero_address(*address),
{
    let mut i: usize = 0;
    while i < 32
        invariant
            i <= 32,
            forall|j: int| 0 <= j < i ==> address[j] == 0,
        decreases 32 - i,
    {
        if address[i] != 0 {
            return false;
        }
        i = i + 1;
    }
    true
}

impl Most {
    /// Whether the stored parts are in order and the bridge meets its invariant.
    pub closed spec fn wf(&self) -> bool {
        &&& self.committees.wf()
        &&& self.ledger.wf()
        &&& self.supported_pairs.wf()
        &&& self.collected_committee_rewards.wf()
        &&& self.paid_out_member_rewards.wf()
        &&& self@.inv()
    }

    /// A well-formed bridge meets its invariant.
    pub proof fn lemma_wf_inv(&self)
        requires
            self.wf(),
        ensures
            self@.inv(),
    {
    }

    /// Sets up the bridge: halted, owned by `owner`, with the given
    /// committee as committee 0.
    pub fn new(
        committee: Vec<AccountId>,
        signature_threshold: u128,
        pocket_money: u128,
        relay_gas_usage: u128,
        min_gas_price: u128,
        max_gas_price: u128,
        default_gas_price: u128,
        gas_price_oracle: Option<AccountId>,
        owner: AccountId,
    ) -> (r: Result<Self, MostError>)
        ensures
            (match State::init(
                committee@,
                signature_threshold,
                pocket_money,
                relay_gas_usage,
                min_gas_price,
                max_gas_price,
                default_gas_price,
                gas_price_oracle,
                owner,
            ) {
                Ok(s) => r is Ok && r->Ok_0@ == s && r->Ok_0.wf(),
                Err(e) => r == Err::<Self, MostError>(e),
            }),
    {
        let ghost members = committee@;
        assert(committee@.len() == committee.len());
        let committees = CommitteeRegistry::new(committee, signature_threshold)?;
        let most = Most {
            data: Data {
                request_nonce: 0,
                committee_id: 0,
                pocket_money,
                pocket_money_balance: 0,
                relay_gas_usage,
                min_gas_price,
                max_gas_price,
                default_gas_price,
                gas_price_oracle,
                is_halted: true,
            },
            ownable_data: Ownable2StepData::new(owner),
            committees,
            ledger: RequestLedger::new(),
            supported_pairs: Table::new(),
            collected_committee_rewards: Table::new(),
            paid_out_member_rewards: Table::new(),
        };
        proof {
            State::lemma_init_inv(
                members,
                signature_threshold,
                pocket_money,
                relay_gas_usage,
                min_gas_price,
                max_gas_price,
                default_gas_price,
                gas_price_oracle,
                owner,
            );
            assert(most@ =~= State::init(
                members,
                signature_threshold,
                pocket_money,
                relay_gas_usage,
                min_gas_price,
                max_gas_price,
                default_gas_price,
                gas_price_oracle,
                owner,
            )->Ok_0);
        }
        Ok(most)
    }

    /// Starts a transfer to the other chain.
    ///
    /// `caller` sends `amount` of the token `src_token_address` to
    /// `dest_receiver_address` and attaches `transferred_value` for the base
    /// fee; `answer` is what the gas price oracle returned (`None` where it
    /// was not asked or the query failed) and `now` the time of the block.
    /// The bridge must be running, the receiver must not be the zero
    /// address, the amount must not be zero, the token must be supported and
    /// the value must cover the base fee. The fee is credited to the active
    /// committee and the nonce goes up by one. The host burns the tokens,
    /// refunds what exceeds the fee and announces the request.
    pub fn send_request(
        &mut self,
        caller: AccountId,
        transferred_value: u128,
        answer: Option<(u128, u64)>,
        now: u64,
        src_token_address: [u8; 32],
        amount: u128,
        dest_receiver_address: [u8; 32],
    ) -> (r: Result<Vec<Action>, MostError>)
        requires
            old(self).wf(),
        ensures
            final(self).wf(),
            effects_match(
                r,
                old(self)@.send_request(
                    caller,
                    transferred_value,
                    answer,
                    now,
                    src_token_address,
                    amount,
                    dest_receiver_address,
                ),
                old(self)@,
                final(self)@,
            ),
    {
        proof {
            self@.lemma_send_request_inv(
                caller,
                transferred_value,
                answer,
                now,
                src_token_address,
                amount,
                dest_receiver_address,
            );
        }
        self.ensure_not_halted()?;
        if zero_address(&dest_receiver_address) {
            return Err(MostError::ZeroAddress);
        }
        if amount == 0 {
            return Err(MostError::ZeroTransferAmount);
        }
        let dest_token_address = self.supported_pairs.get(&src_token_address).ok_or(
            MostError::UnsupportedPair,
        )?;
        let current_base_fee = self.get_base_fee(answer, now)?;
        if transferred_value < current_base_fee {
            return Err(MostError::BaseFeeTooLow);
        }
        let committee_id = self.data.committee_id;
        let collected = self.get_collected_committee_rewards(committee_id);
        let base_fee_total = collected.checked_add(current_base_fee).ok_or(MostError::Arithmetic)?;
        let request_nonce = self.data.request_nonce;
        let next_nonce = request_nonce.checked_add(1).ok_or(MostError::Arithmetic)?;
        self.collected_committee_rewards.insert(committee_id, base_fee_total);
        self.data.request_nonce = next_nonce;

        let mut actions: Vec<Action> = Vec::new();
        actions.push(Action::Burn { token: src_token_address, from: caller, amount });
        let surplus = transferred_value - current_base_fee;
        if surplus > 0 {
            actions.push(Action::Transfer { to: caller, amount: surplus });
        }
        actions.push(
            Action::Emit(
                BridgeEvent::CrosschainTransferRequest(
                    CrosschainTransferRequest {
                        committee_id,
                        dest_token_address,
                        amount,
                        dest_receiver_address,
                        request_nonce,
                    },
                ),
            ),
        );
        proof {
            let expected = old(self)@.send_request(
                caller,
                transferred_value,
                answer,
                now,
                src_token_address,
                amount,
                dest_receiver_address,
            )->Ok_0;
            assert(self@ =~= expected.0);
            assert(actions@ =~= expected.1);
        }
        Ok(actions)
    }

    /// Counts the vote of the guardian `caller` on an inbound request.
    ///
    /// The hash of the request's data is computed and the vote is then
    /// handled as `receive_hashed_request` says.
    pub fn receive_request(
        &mut self,
        caller: AccountId,
        request_hash: HashedRequest,
        committee_id: u128,
        dest_token_address: [u8; 32],
        amount: u128,
        dest_receiver_address: [u8; 32],
        request_nonce: u128,
    ) -> (r: Result<Vec<Action>, MostError>)
        requires
            old(self).wf(),
        ensures
            final(self).wf(),
            effects_match(
                r,
                old(self)@.receive_request(
                    caller,
                    request_hash,
                    committee_id,
                    dest_token_address,
                    amount,
                    dest_receiver_address,
                    request_nonce,
                ),
                old(self)@,
                final(self)@,
            ),
    {
        let computed_hash = hash_request_data(
            committee_id,
            dest_token_address,
            amount,
            dest_receiver_address,
            request_nonce,
        );
        self.receive_hashed_request(
            caller,
            request_hash,
            computed_hash,
            committee_id,
            dest_token_address,
            amount,
            dest_receiver_address,
        )
    }

    /// Counts the vote of the guardian `caller` on the inbound request with
    /// hash `request_hash`, where `computed_hash` is the hash of the
    /// request's data.
    ///
    /// The bridge must be running, the caller must belong to the committee
    /// `committee_id`, and the two hashes must be the same. A vote on a
    /// request that was carried out, and a second vote of the same guardian,
    /// succeed and change nothing. Any other vote is counted. Where the
    /// count reaches the quorum of the active committee, the request is
    /// marked as processed: the host mints the tokens and, where the funds
    /// cover it, pays the subsidy to the receiver.
    pub fn receive_hashed_request(
        &mut self,
        caller: AccountId,
        request_hash: HashedRequest,
        computed_hash: HashedRequest,
        committee_id: u128,
        dest_token_address: [u8; 32],
        amount: u128,
        dest_receiver_address: [u8; 32],
    ) -> (r: Result<Vec<Action>, MostError>)
        requires
            old(self).wf(),
        ensures
            final(self).wf(),
            effects_match(
                r,
                old(self)@.receive_request_with(
                    caller,
                    request_hash,
                    computed_hash,
                    committee_id,
                    dest_token_address,
                    amount,
                    dest_receiver_address,
                ),
                old(self)@,
                final(self)@,
            ),
    {
        proof {
            self@.lemma_receive_request_inv(
                caller,
                request_hash,
                computed_hash,
                committee_id,
                dest_token_address,
                amount,
                dest_receiver_address,
            );
        }
        let ghost expected = old(self)@.receive_request_with(
            caller,
            request_hash,
            computed_hash,
            committee_id,
            dest_token_address,
            amount,
            dest_receiver_address,
        );
        self.ensure_not_halted()?;
        if !self.committees.is_member(committee_id, &caller) {
            return Err(MostError::NotInCommittee);
        }
        if !request_hash.same(&computed_hash) {
            return Err(MostError::HashDoesNotMatchData);
        }
        let signature_threshold = self.committees.threshold(self.data.committee_id).ok_or(
            MostError::InvalidThreshold,
        )?;
        let mut actions: Vec<Action> = Vec::new();
        match self.ledger.record_vote(request_hash, caller) {
            Err(e) => Err(e),
            Ok(VoteAction::AlreadyProcessed) => {
                actions.push(
                    Action::Emit(
                        BridgeEvent::SignedProcessedRequest(
                            SignedProcessedRequest { request_hash, signer: caller },
                        ),
                    ),
                );
                proof {
                    assert(self@ =~= expected->Ok_0.0);
                    assert(actions@ =~= expected->Ok_0.1);
                }
                Ok(actions)
            },
            Ok(VoteAction::AlreadySigned) => {
                actions.push(
                    Action::Emit(
                        BridgeEvent::RequestAlreadySigned(
                            RequestAlreadySigned { request_hash, signer: caller },
                        ),
                    ),
                );
                proof {
                    assert(self@ =~= expected->Ok_0.0);
                    assert(actions@ =~= expected->Ok_0.1);
                }
                Ok(actions)
            },
            Ok(VoteAction::Counted { new_count }) => {
                actions.push(
                    Action::Emit(
                        BridgeEvent::RequestSigned(RequestSigned { request_hash, signer: caller }),
                    ),
                );
                if new_count >= signature_threshold {
                    actions.push(
                        Action::Mint {
                            token: dest_token_address,
                            to: dest_receiver_address,
                            amount,
                        },
                    );
                    if self.data.pocket_money_balance >= self.data.pocket_money {
                        actions.push(
                            Action::TryTransfer {
                                to: dest_receiver_address,
                                amount: self.data.pocket_money,
                            },
                        );
                        self.data.pocket_money_balance = self.data.pocket_money_balance
                            - self.data.pocket_money;
                    }
                    self.ledger.finalize(request_hash);
                    actions.push(
                        Action::Emit(
                            BridgeEvent::RequestProcessed(
                                RequestProcessed { request_hash, dest_token_address },
                            ),
                        ),
                    );
                }
                proof {
                    assert(self@ =~= expected->Ok_0.0);
                    assert(actions@ =~= expected->Ok_0.1);
                }
                Ok(actions)
            },
        }
    }

    /// The base fee that a sender is charged, given what the gas price
    /// oracle answered (`None` where it was not asked or the query failed)
    /// and the time of the block.
    pub fn get_base_fee(&self, answer: Option<(u128, u64)>, now: u64) -> (r: Result<
        u128,
        MostError,
    >)
        ensures
            r == self@.base_fee(answer, now),
    {
        let price = gas_price(
            self.data.gas_price_oracle,
            answer,
            now,
            self.data.min_gas_price,
            self.data.max_gas_price,
            self.data.default_gas_price,
        );
        base_fee(price, self.data.relay_gas_usage)
    }

    /// The fees collected while the committee with this id was active.
    pub fn get_collected_committee_rewards(&self, committee_id: u128) -> (r: u128)
        requires
            self.wf(),
        ensures
            r == self@.collected_rewards(committee_id),
    {
        match self.collected_committee_rewards.get(&committee_id) {
            Some(collected) => collected,
            None => 0,
        }
    }

    /// Pays `member_id` what it may still claim of the fees of the committee
    /// with id `committee_id`. Anyone may ask for it; the funds go to the
    /// member. The bridge must be running and the account must belong to
    /// that committee.
    pub fn payout_rewards(&mut self, committee_id: u128, member_id: AccountId) -> (r: Result<
        Vec<Action>,
        MostError,
    >)
        requires
            old(self).wf(),
        ensures
            final(self).wf(),
            effects_match(
                r,
                old(self)@.payout_rewards(committee_id, member_id),
                old(self)@,
                final(self)@,
            ),
    {
        proof {
            self@.lemma_payout_rewards_inv(committee_id, member_id);
        }
        let ghost expected = old(self)@.payout_rewards(committee_id, member_id);
        self.ensure_not_halted()?;
        let paid_out_rewards = self.get_paid_out_member_rewards(committee_id, member_id);
        let outstanding_rewards = self.get_outstanding_member_rewards(committee_id, member_id)?;
        let mut actions: Vec<Action> = Vec::new();
        if outstanding_rewards > 0 {
            let total = paid_out_rewards.checked_add(outstanding_rewards).ok_or(
                MostError::Arithmetic,
            )?;
            self.paid_out_member_rewards.insert((member_id, committee_id), total);
            actions.push(Action::Transfer { to: member_id, amount: outstanding_rewards });
        }
        proof {
            assert(self@ =~= expected->Ok_0.0);
            assert(actions@ =~= expected->Ok_0.1);
        }
        Ok(actions)
    }

    /// Adds `transferred_value` to the funds that subsidies are paid from.
    pub fn fund_pocket_money(&mut self, transferred_value: u128) -> (r: Result<(), MostError>)
        requires
            old(self).wf(),
        ensures
            final(self).wf(),
            state_matches(
                r,
                old(self)@.fund_pocket_money(transferred_value),
                old(self)@,
                final(self)@,
            ),
    {
        match self.data.pocket_money_balance.checked_add(transferred_value) {
            Some(balance) => {
                self.data.pocket_money_balance = balance;
                proof {
                    let next = old(self)@.fund_pocket_money(transferred_value)->Ok_0;
                    assert(self@ =~= next);
                    assert forall|m: AccountId, id: u128| #[trigger]
                        next.paid_out.contains_key((m, id)) implies next.is_in_committee(id, m)
                        && next.paid_out[(m, id)] <= next.member_share(id) by {
                        assert(old(self)@.paid_out.contains_key((m, id)));
                    }
                }
                Ok(())
            },
            None => Err(MostError::Arithmetic),
        }
    }

    /// Replaces the bridge's code by the code with this hash. Only the owner may do so.
    pub fn set_code(&mut self, caller: AccountId, code_hash: [u8; 32]) -> (r: Result<
        Vec<Action>,
        MostError,
    >)
        requires
            old(self).wf(),
        ensures
            final(self).wf(),
            effects_match(r, old(self)@.set_code(caller, code_hash), old(self)@, final(self)@),
    {
        self.only_owner(caller)?;
        let mut actions: Vec<Action> = Vec::new();
        actions.push(Action::SetCode { code_hash });
        assert(actions@ =~= old(self)@.set_code(caller, code_hash)->Ok_0.1);
        Ok(actions)
    }

    /// The nonce that the next outbound request gets.
    pub fn get_request_nonce(&self) -> (r: Result<u128, MostError>)
        ensures
            r == Ok::<u128, MostError>(self@.data.request_nonce),
    {
        Ok(self.data.request_nonce)
    }

    /// The subsidy paid to the receiver of each inbound transfer.
    pub fn get_pocket_money(&self) -> (r: Result<u128, MostError>)
        ensures
            r == Ok::<u128, MostError>(self@.data.pocket_money),
    {
        Ok(self.data.pocket_money)
    }

    /// The funds that subsidies are paid from.
    pub fn get_pocket_money_balance(&self) -> (r: Result<u128, MostError>)
        ensures
            r == Ok::<u128, MostError>(self@.data.pocket_money_balance),
    {
        Ok(self.data.pocket_money_balance)
    }

    /// The id of the active committee.
    pub fn get_current_committee_id(&self) -> (r: Result<u128, MostError>)
        ensures
            r == Ok::<u128, MostError>(self@.data.committee_id),
    {
        Ok(self.data.committee_id)
    }

    /// The gas price oracle, if one is configured.
    pub fn get_gas_price_oracle(&self) -> (r: Option<AccountId>)
        ensures
            r == self@.data.gas_price_oracle,
    {
        self.data.gas_price_oracle
    }

    /// What this member was paid of the fees of the committee with this id.
    pub fn get_paid_out_member_rewards(&self, committee_id: u128, member_id: AccountId) -> (r:
        u128)
        requires
            self.wf(),
        ensures
            r == self@.paid_out_rewards(committee_id, member_id),
    {
        match self.paid_out_member_rewards.get(&(member_id, committee_id)) {
            Some(paid_out) => paid_out,
            None => 0,
        }
    }

    /// What this member may still claim of the fees of the committee with
    /// this id: its equal part of what was collected, less what it was paid.
    /// An account that does not belong to that committee is refused.
    pub fn get_outstanding_member_rewards(&self, committee_id: u128, member_id: AccountId) -> (r:
        Result<u128, MostError>)
        requires
            self.wf(),
        ensures
            r == self@.outstanding_rewards(committee_id, member_id),
    {
        self.only_committee_member(committee_id, member_id)?;
        let size = self.committees.size(committee_id).ok_or(MostError::NoSuchCommittee)?;
        assert(self@.committees[committee_id as int].valid());
        if size == 0 {
            return Err(MostError::Arithmetic);
        }
        let collected = self.get_collected_committee_rewards(committee_id);
        let paid_out = self.get_paid_out_member_rewards(committee_id, member_id);
        Ok(outstanding_share(collected, size, paid_out))
    }

    /// Whether `account` belongs to the committee with this id.
    pub fn is_in_committee(&self, committee_id: u128, account: AccountId) -> (r: bool)
        ensures
            r == self@.is_in_committee(committee_id, account),
    {
        self.committees.is_member(committee_id, &account)
    }

    /// Succeeds exactly when `account` belongs to the committee with this id.
    pub fn only_committee_member(&self, committee_id: u128, account: AccountId) -> (r: Result<
        (),
        MostError,
    >)
        ensures
            r == (if self@.is_in_committee(committee_id, account) {
                Ok::<(), MostError>(())
            } else {
                Err(MostError::NotInCommittee)
            }),
    {
        if self.is_in_committee(committee_id, account) {
            Ok(())
        } else {
            Err(MostError::NotInCommittee)
        }
    }

    /// Withdraws support for the token `from`. Only the owner may do so, and
    /// only while the bridge is halted.
    pub fn remove_pair(&mut self, caller: AccountId, from: [u8; 32]) -> (r: Result<(), MostError>)
        requires
            old(self).wf(),
        ensures
            final(self).wf(),
            state_matches(r, old(self)@.remove_pair(caller, from), old(self)@, final(self)@),
    {
        self.ensure_owner_of_halted(caller)?;
        self.supported_pairs.remove(&from);
        proof {
            let next = old(self)@.remove_pair(caller, from)->Ok_0;
            assert(self@ =~= next);
            assert forall|m: AccountId, id: u128| #[trigger]
                next.paid_out.contains_key((m, id)) implies next.is_in_committee(id, m)
                && next.paid_out[(m, id)] <= next.member_share(id) by {
                assert(old(self)@.paid_out.contains_key((m, id)));
            }
        }
        Ok(())
    }

    /// Declares that the token `from` is bridged to the token `to` on the
    /// other chain, replacing an earlier declaration for `from`. Only the
    /// owner may do so, only while the bridge is halted, and only where the
    /// bridge may mint `from`: `minter` is the account that the token names
    /// as its minter, `bridge` the bridge's own account.
    pub fn add_pair(
        &mut self,
        caller: AccountId,
        from: [u8; 32],
        to: [u8; 32],
        minter: AccountId,
        bridge: AccountId,
    ) -> (r: Result<(), MostError>)
        requires
            old(self).wf(),
        ensures
            final(self).wf(),
            state_matches(
                r,
                old(self)@.add_pair(caller, from, to, minter, bridge),
                old(self)@,
                final(self)@,
            ),
    {
        self.ensure_owner_of_halted(caller)?;
        if !minter.same(&bridge) {
            return Err(MostError::NoMintPermission);
        }
        self.supported_pairs.insert(from, to);
        proof {
            let next = old(self)@.add_pair(caller, from, to, minter, bridge)->Ok_0;
            assert(self@ =~= next);
            assert forall|m: AccountId, id: u128| #[trigger]
                next.paid_out.contains_key((m, id)) implies next.is_in_committee(id, m)
                && next.paid_out[(m, id)] <= next.member_share(id) by {
                assert(old(self)@.paid_out.contains_key((m, id)));
            }
        }
        Ok(())
    }

    /// Names the gas price oracle. Only the owner may do so.
    pub fn set_gas_price_oracle(&mut self, caller: AccountId, gas_price_oracle: AccountId) -> (r:
        Result<(), MostError>)
        requires
            old(self).wf(),
        ensures
            final(self).wf(),
            state_matches(
                r,
                old(self)@.set_gas_price_oracle(caller, gas_price_oracle),
                old(self)@,
                final(self)@,
            ),
    {
        self.only_owner(caller)?;
        self.data.gas_price_oracle = Some(gas_price_oracle);
        proof {
            let next = old(self)@.set_gas_price_oracle(caller, gas_price_oracle)->Ok_0;
            assert(self@ =~= next);
            assert forall|m: AccountId, id: u128| #[trigger]
                next.paid_out.contains_key((m, id)) implies next.is_in_committee(id, m)
                && next.paid_out[(m, id)] <= next.member_share(id) by {
                assert(old(self)@.paid_out.contains_key((m, id)));
            }
        }
        Ok(())
    }

    /// Sets a new committee, whose id is one more than that of the committee
    /// before it. Only the owner may do so, and only while the bridge is
    /// halted. The earlier committees stay on record, so that their members
    /// can still claim their rewards.
    pub fn set_committee(
        &mut self,
        caller: AccountId,
        committee: Vec<AccountId>,
        signature_threshold: u128,
    ) -> (r: Result<(), MostError>)
        requires
            old(self).wf(),
        ensures
            final(self).wf(),
            state_matches(
                r,
                old(self)@.set_committee(caller, committee@, signature_threshold),
                old(self)@,
                final(self)@,
            ),
    {
        assert(committee@.len() == committee.len());
        proof {
            self@.lemma_set_committee_inv(caller, committee@, signature_threshold);
        }
        self.ensure_owner_of_halted(caller)?;
        match self.committees.rotate(committee, signature_threshold) {
            Ok(committee_id) => {
                self.data.committee_id = committee_id;
                proof {
                    let next = old(self)@.set_committee(
                        caller,
                        committee@,
                        signature_threshold,
                    )->Ok_0;
                    assert(self@ =~= next);
                }
                Ok(())
            },
            Err(e) => Err(e),
        }
    }

    /// Halts or resumes the bridge. Only the owner may do so. The change is
    /// announced only where the state changes.
    pub fn set_halted(&mut self, caller: AccountId, new_state: bool) -> (r: Result<
        Vec<Action>,
        MostError,
    >)
        requires
            old(self).wf(),
        ensures
            final(self).wf(),
            effects_match(r, old(self)@.set_halted(caller, new_state), old(self)@, final(self)@),
    {
        self.only_owner(caller)?;
        let previous_state = self.data.is_halted;
        let mut actions: Vec<Action> = Vec::new();
        if new_state != previous_state {
            self.data.is_halted = new_state;
            actions.push(
                Action::Emit(
                    BridgeEvent::HaltedStateChanged(
                        HaltedStateChanged { previous_state, new_state, caller },
                    ),
                ),
            );
        }
        proof {
            let expected = old(self)@.set_halted(caller, new_state)->Ok_0;
            assert(self@ =~= expected.0);
            assert(actions@ =~= expected.1);
            assert forall|m: AccountId, id: u128| #[trigger]
                expected.0.paid_out.contains_key((m, id)) implies expected.0.is_in_committee(id, m)
                && expected.0.paid_out[(m, id)] <= expected.0.member_share(id) by {
                assert(old(self)@.paid_out.contains_key((m, id)));
            }
        }
        Ok(actions)
    }

    /// Pays out `amount` of `token`, held by the bridge, to `receiver`. Only
    /// the owner may do so.
    pub fn recover_psp22(
        &mut self,
        caller: AccountId,
        token: AccountId,
        receiver: AccountId,
        amount: u128,
    ) -> (r: Result<Vec<Action>, MostError>)
        requires
            old(self).wf(),
        ensures
            final(self).wf(),
            effects_match(
                r,
                old(self)@.recover_psp22(caller, token, receiver, amount),
                old(self)@,
                final(self)@,
            ),
    {
        self.only_owner(caller)?;
        let mut actions: Vec<Action> = Vec::new();
        actions.push(Action::TransferToken { token, to: receiver, amount });
        assert(actions@ =~= old(self)@.recover_psp22(caller, token, receiver, amount)->Ok_0.1);
        Ok(actions)
    }

    /// Pays out `amount` of the native currency, held by the bridge, to
    /// `receiver`. Only the owner may do so.
    pub fn recover_azero(&mut self, caller: AccountId, receiver: AccountId, amount: u128) -> (r:
        Result<Vec<Action>, MostError>)
        requires
            old(self).wf(),
        ensures
            final(self).wf(),
            effects_match(
                r,
                old(self)@.recover_azero(caller, receiver, amount),
                old(self)@,
                final(self)@,
            ),
    {
        self.only_owner(caller)?;
        let mut actions: Vec<Action> = Vec::new();
        actions.push(Action::Transfer { to: receiver, amount });
        assert(actions@ =~= old(self)@.recover_azero(caller, receiver, amount)->Ok_0.1);
        Ok(actions)
    }

    /// Whether the bridge is halted.
    pub fn is_halted(&self) -> (r: Result<bool, MostError>)
        ensures
            r == Ok::<bool, MostError>(self@.data.is_halted),
    {
        Ok(self.data.is_halted)
    }

    /// Where the request with hash `hashed_request` stands: processed, else
    /// pending with its number of votes, else unknown.
    pub fn request_status(&self, hashed_request: HashedRequest) -> (status: RequestStatus)
        requires
            self.wf(),
        ensures
            status == self@.request_status(hashed_request),
    {
        self.ledger.status(&hashed_request)
    }

    /// Succeeds exactly when `caller` is the owner; the refusal of the
    /// ownership check becomes a refusal of the bridge.
    fn only_owner(&self, caller: AccountId) -> (r: Result<(), MostError>)
        ensures
            r == self@.check_owner(caller),
    {
        match self.ensure_owner(caller) {
            Ok(()) => Ok(()),
            Err(e) => Err(MostError::from(e)),
        }
    }

    /// Succeeds exactly when `caller` is the owner and the bridge is halted:
    /// the condition for changing the pairs and the committee.
    pub fn ensure_owner_of_halted(&self, caller: AccountId) -> (r: Result<(), MostError>)
        ensures
            r == self@.check_owner_of_halted(caller),
    {
        self.only_owner(caller)?;
        self.ensure_halted()
    }

    /// Succeeds exactly when the bridge is halted.
    pub fn ensure_halted(&self) -> (r: Result<(), MostError>)
        ensures
            r == (if self@.data.is_halted {
                Ok::<(), MostError>(())
            } else {
                Err(MostError::HaltRequired)
            }),
    {
        if self.data.is_halted {
            Ok(())
        } else {
            Err(MostError::HaltRequired)
        }
    }

    /// Succeeds exactly when the bridge is running.
    pub fn ensure_not_halted(&self) -> (r: Result<(), MostError>)
        ensures
            r == (if self@.data.is_halted {
                Err::<(), MostError>(MostError::IsHalted)
            } else {
                Ok(())
            }),
    {
        if self.data.is_halted {
            Err(MostError::IsHalted)
        } else {
            Ok(())
        }
    }

    /// The main data of the bridge.
    pub fn data(&self) -> (r: Result<Data, MostError>)
        ensures
            r == Ok::<Data, MostError>(self@.data),
    {
        Ok(self.data)
    }

    /// The owner and the successor that the owner named.
    pub fn ownable_data(&self) -> (r: Ownable2StepResult<Ownable2StepData>)
        ensures
            r == Ok::<Ownable2StepData, Ownable2StepError>(self@.ownable),
    {
        Ok(self.ownable_data)
    }

    /// The owner of the bridge.
    pub fn get_owner(&self) -> (r: Ownable2StepResult<AccountId>)
        ensures
            r == Ok::<AccountId, Ownable2StepError>(self@.ownable.owner),
    {
        self.ownable_data.get_owner()
    }

    /// The successor that the owner named, or `NoPendingOwner`.
    pub fn get_pending_owner(&self) -> (r: Ownable2StepResult<AccountId>)
        ensures
            r == (match self@.ownable.pending_owner {
                Some(pending) => Ok::<AccountId, Ownable2StepError>(pending),
                None => Err(Ownable2StepError::NoPendingOwner),
            }),
    {
        self.ownable_data.get_pending_owner()
    }

    /// Names `new_owner` as the next owner. Only the owner may do so, and
    /// stays owner until the successor accepts.
    pub fn transfer_ownership(&mut self, caller: AccountId, new_owner: AccountId) -> (r:
        Ownable2StepResult<Vec<Action>>)
        requires
            old(self).wf(),
        ensures
            final(self).wf(),
            effects_match(
                r,
                old(self)@.transfer_ownership(caller, new_owner),
                old(self)@,
                final(self)@,
            ),
    {
        self.ownable_data.transfer_ownership(caller, new_owner)?;
        let mut actions: Vec<Action> = Vec::new();
        actions.push(
            Action::Emit(
                BridgeEvent::TransferOwnershipInitiated(TransferOwnershipInitiated { new_owner }),
            ),
        );
        proof {
            let expected = old(self)@.transfer_ownership(caller, new_owner)->Ok_0;
            assert(self@ =~= expected.0);
            assert(actions@ =~= expected.1);
            assert forall|m: AccountId, id: u128| #[trigger]
                expected.0.paid_out.contains_key((m, id)) implies expected.0.is_in_committee(id, m)
                && expected.0.paid_out[(m, id)] <= expected.0.member_share(id) by {
                assert(old(self)@.paid_out.contains_key((m, id)));
            }
        }
        Ok(actions)
    }

    /// Makes `caller` the owner, if `caller` is the successor that the owner named.
    pub fn accept_ownership(&mut self, caller: AccountId) -> (r: Ownable2StepResult<Vec<Action>>)
        requires
            old(self).wf(),
        ensures
            final(self).wf(),
            effects_match(r, old(self)@.accept_ownership(caller), old(self)@, final(self)@),
    {
        self.ownable_data.accept_ownership(caller)?;
        let mut actions: Vec<Action> = Vec::new();
        actions.push(
            Action::Emit(
                BridgeEvent::TransferOwnershipAccepted(
                    TransferOwnershipAccepted { new_owner: caller },
                ),
            ),
        );
        proof {
            let expected = old(self)@.accept_ownership(caller)->Ok_0;
            assert(self@ =~= expected.0);
            assert(actions@ =~= expected.1);
            assert forall|m: AccountId, id: u128| #[trigger]
                expected.0.paid_out.contains_key((m, id)) implies expected.0.is_in_committee(id, m)
                && expected.0.paid_out[(m, id)] <= expected.0.member_share(id) by {
                assert(old(self)@.paid_out.contains_key((m, id)));
            }
        }
        Ok(actions)
    }

    /// Succeeds exactly when `caller` is the owner.
    pub fn ensure_owner(&self, caller: AccountId) -> (r: Ownable2StepResult<()>)
        ensures
            r == self@.ownable.check_owner(caller),
    {
        self.ownable_data.ensure_owner(caller)
    }
}

} // verus!

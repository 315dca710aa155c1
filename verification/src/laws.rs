//! What holds of the bridge whatever is asked of it, and in whatever order.

use crate::committee::committee_verdict;
use crate::error::MostError;
use crate::events::Action;
use crate::fees::lemma_shares_covered;
use crate::handler::{vote_for, MostEvents};
use crate::hashing::{AccountId, HashedRequest};
use crate::ledger::VoteAction;
use crate::state::State;
use vstd::prelude::*;

verus! {

/// An operation asked of the bridge, with all that it depends on.
pub enum Call {
    SendRequest {
        caller: AccountId,
        transferred_value: u128,
        answer: Option<(u128, u64)>,
        now: u64,
        src_token_address: [u8; 32],
        amount: u128,
        dest_receiver_address: [u8; 32],
    },
    ReceiveRequest {
        caller: AccountId,
        request_hash: HashedRequest,
        committee_id: u128,
        dest_token_address: [u8; 32],
        amount: u128,
        dest_receiver_address: [u8; 32],
        request_nonce: u128,
    },
    PayoutRewards { committee_id: u128, member_id: AccountId },
    FundPocketMoney { transferred_value: u128 },
    SetCode { caller: AccountId, code_hash: [u8; 32] },
    RemovePair { caller: AccountId, from: [u8; 32] },
    AddPair {
        caller: AccountId,
        from: [u8; 32],
        to: [u8; 32],
        minter: AccountId,
        bridge: AccountId,
    },
    SetGasPriceOracle { caller: AccountId, gas_price_oracle: AccountId },
    SetCommittee { caller: AccountId, committee: Seq<AccountId>, signature_threshold: u128 },
    SetHalted { caller: AccountId, new_state: bool },
    RecoverPsp22 { caller: AccountId, token: AccountId, receiver: AccountId, amount: u128 },
    RecoverAzero { caller: AccountId, receiver: AccountId, amount: u128 },
    TransferOwnership { caller: AccountId, new_owner: AccountId },
    AcceptOwnership { caller: AccountId },
}

impl Call {
    /// Whether the call can be made on a machine: a committee has no more
    /// members than a vector can hold.
    pub open spec fn fits(self) -> bool {
        self matches Call::SetCommittee { committee, .. } ==> committee.len() <= usize::MAX
    }
}

/// Whether each of the calls can be made on a machine.
pub open spec fn all_fit(calls: Seq<Call>) -> bool {
    forall|i: int| 0 <= i < calls.len() ==> (#[trigger] calls[i]).fits()
}

impl State {
    /// The bridge after the call, where the bridge accepts it.
    pub open spec fn accepted(self, call: Call) -> Option<State> {
        match call {
            Call::SendRequest {
                caller,
                transferred_value,
                answer,
                now,
                src_token_address,
                amount,
                dest_receiver_address,
            } => match self.send_request(
                caller,
                transferred_value,
                answer,
                now,
                src_token_address,
                amount,
                dest_receiver_address,
            ) {
                Ok((next, _)) => Some(next),
                Err(_) => None,
            },
            Call::ReceiveRequest {
                caller,
                request_hash,
                committee_id,
                dest_token_address,
                amount,
                dest_receiver_address,
                request_nonce,
            } => match self.receive_request(
                caller,
                request_hash,
                committee_id,
                dest_token_address,
                amount,
                dest_receiver_address,
                request_nonce,
            ) {
                Ok((next, _)) => Some(next),
                Err(_) => None,
            },
            Call::PayoutRewards { committee_id, member_id } => match self.payout_rewards(
                committee_id,
                member_id,
            ) {
                Ok((next, _)) => Some(next),
                Err(_) => None,
            },
            Call::FundPocketMoney { transferred_value } => match self.fund_pocket_money(
                transferred_value,
            ) {
                Ok(next) => Some(next),
                Err(_) => None,
            },
            Call::SetCode { caller, code_hash } => match self.set_code(caller, code_hash) {
                Ok((next, _)) => Some(next),
                Err(_) => None,
            },
            Call::RemovePair { caller, from } => match self.remove_pair(caller, from) {
                Ok(next) => Some(next),
                Err(_) => None,
            },
            Call::AddPair { caller, from, to, minter, bridge } => match self.add_pair(
                caller,
                from,
                to,
                minter,
                bridge,
            ) {
                Ok(next) => Some(next),
                Err(_) => None,
            },
            Call::SetGasPriceOracle { caller, gas_price_oracle } => match self.set_gas_price_oracle(
                caller,
                gas_price_oracle,
            ) {
                Ok(next) => Some(next),
                Err(_) => None,
            },
            Call::SetCommittee { caller, committee, signature_threshold } => {
                match self.set_committee(caller, committee, signature_threshold) {
                    Ok(next) => Some(next),
                    Err(_) => None,
                }
            },
            Call::SetHalted { caller, new_state } => match self.set_halted(caller, new_state) {
                Ok((next, _)) => Some(next),
                Err(_) => None,
            },
            Call::RecoverPsp22 { caller, token, receiver, amount } => match self.recover_psp22(
                caller,
                token,
                receiver,
                amount,
            ) {
                Ok((next, _)) => Some(next),
                Err(_) => None,
            },
            Call::RecoverAzero { caller, receiver, amount } => match self.recover_azero(
                caller,
                receiver,
                amount,
            ) {
                Ok((next, _)) => Some(next),
                Err(_) => None,
            },
            Call::TransferOwnership { caller, new_owner } => match self.transfer_ownership(
                caller,
                new_owner,
            ) {
                Ok((next, _)) => Some(next),
                Err(_) => None,
            },
            Call::AcceptOwnership { caller } => match self.accept_ownership(caller) {
                Ok((next, _)) => Some(next),
                Err(_) => None,
            },
        }
    }

    /// The bridge after the call: changed as the call says where the bridge
    /// accepts it, unchanged where the bridge refuses it.
    pub open spec fn after(self, call: Call) -> State {
        match self.accepted(call) {
            Some(next) => next,
            None => self,
        }
    }

    /// The bridge after the calls, made one after the other.
    pub open spec fn after_all(self, calls: Seq<Call>) -> State
        decreases calls.len(),
    {
        if calls.len() == 0 {
            self
        } else {
            self.after_all(calls.drop_last()).after(calls.last())
        }
    }

    /// What the members of the committee with this id were paid, taken
    /// together: the payouts of its first `count` members.
    pub open spec fn paid_out_sum(self, committee_id: u128, count: nat) -> nat
        decreases count,
    {
        if count == 0 {
            0
        } else {
            self.paid_out_sum(committee_id, (count - 1) as nat) + self.paid_out_rewards(
                committee_id,
                self.committees[committee_id as int].members[count - 1],
            ) as nat
        }
    }

    /// Where nothing that the invariant speaks of has changed, it still holds.
    proof fn lemma_inv_frame(self, next: State)
        requires
            self.inv(),
            next.committees == self.committees,
            next.ledger == self.ledger,
            next.collected == self.collected,
            next.paid_out == self.paid_out,
            next.data.committee_id == self.data.committee_id,
        ensures
            next.inv(),
    {
        assert forall|m: AccountId, id: u128| #[trigger]
            next.paid_out.contains_key((m, id)) implies next.is_in_committee(id, m)
            && next.paid_out[(m, id)] <= next.member_share(id) by {
            assert(self.paid_out.contains_key((m, id)));
        }
    }

    /// Every call keeps the bridge in order.
    pub proof fn law_call_keeps_invariant(self, call: Call)
        requires
            self.inv(),
            call.fits(),
        ensures
            self.after(call).inv(),
    {
        let next = self.after(call);
        match call {
            Call::SendRequest {
                caller,
                transferred_value,
                answer,
                now,
                src_token_address,
                amount,
                dest_receiver_address,
            } => {
                self.lemma_send_request_inv(
                    caller,
                    transferred_value,
                    answer,
                    now,
                    src_token_address,
                    amount,
                    dest_receiver_address,
                );
            },
            Call::ReceiveRequest {
                caller,
                request_hash,
                committee_id,
                dest_token_address,
                amount,
                dest_receiver_address,
                request_nonce,
            } => {
                self.lemma_receive_request_inv(
                    caller,
                    request_hash,
                    crate::hashing::request_hash(
                        committee_id,
                        dest_token_address,
                        amount,
                        dest_receiver_address,
                        request_nonce,
                    ),
                    committee_id,
                    dest_token_address,
                    amount,
                    dest_receiver_address,
                );
            },
            Call::PayoutRewards { committee_id, member_id } => {
                self.lemma_payout_rewards_inv(committee_id, member_id);
            },
            Call::SetCommittee { caller, committee, signature_threshold } => {
                self.lemma_set_committee_inv(caller, committee, signature_threshold);
            },
            _ => {
                self.lemma_inv_frame(next);
            },
        }
    }

    /// The bridge is in order when it is set up and stays so through any calls.
    pub proof fn law_invariant_always_holds(self, calls: Seq<Call>)
        requires
            self.inv(),
            all_fit(calls),
        ensures
            self.after_all(calls).inv(),
        decreases calls.len(),
    {
        if calls.len() > 0 {
            self.law_invariant_always_holds(calls.drop_last());
            self.after_all(calls.drop_last()).law_call_keeps_invariant(calls.last());
        }
    }

    /// Whatever is asked of a bridge after it was set up, and in whatever
    /// order, the bridge is in order.
    pub proof fn law_bridge_is_always_in_order(
        committee: Seq<AccountId>,
        signature_threshold: u128,
        pocket_money: u128,
        relay_gas_usage: u128,
        min_gas_price: u128,
        max_gas_price: u128,
        default_gas_price: u128,
        gas_price_oracle: Option<AccountId>,
        owner: AccountId,
        calls: Seq<Call>,
    )
        requires
            committee.len() <= usize::MAX,
            all_fit(calls),
        ensures
            State::init(
                committee,
                signature_threshold,
                pocket_money,
                relay_gas_usage,
                min_gas_price,
                max_gas_price,
                default_gas_price,
                gas_price_oracle,
                owner,
            ) matches Ok(bridge) ==> bridge.after_all(calls).inv(),
    {
        State::lemma_init_inv(
            committee,
            signature_threshold,
            pocket_money,
            relay_gas_usage,
            min_gas_price,
            max_gas_price,
            default_gas_price,
            gas_price_oracle,
            owner,
        );
        if let Ok(bridge) = State::init(
            committee,
            signature_threshold,
            pocket_money,
            relay_gas_usage,
            min_gas_price,
            max_gas_price,
            default_gas_price,
            gas_price_oracle,
            owner,
        ) {
            bridge.law_invariant_always_holds(calls);
        }
    }

    /// A request that was carried out is not pending.
    pub proof fn law_processed_is_not_pending(self, h: HashedRequest)
        requires
            self.inv(),
        ensures
            self.ledger.processed.contains(h) ==> !self.ledger.pending.contains_key(h),
    {
    }

    /// The count of a pending request is the number of votes on record for it.
    pub proof fn law_count_is_number_of_votes(self, h: HashedRequest)
        requires
            self.inv(),
        ensures
            self.ledger.pending.contains_key(h) ==> self.ledger.pending[h].signature_count
                == self.ledger.votes(h),
    {
    }

    /// No call takes a request out of the processed ones.
    pub proof fn law_processed_stays_processed(self, call: Call, h: HashedRequest)
        requires
            self.ledger.processed.contains(h),
        ensures
            self.after(call).ledger.processed.contains(h),
    {
    }

    /// A request that was carried out stays so through any calls.
    pub proof fn law_processed_is_permanent(self, calls: Seq<Call>, h: HashedRequest)
        requires
            self.ledger.processed.contains(h),
        ensures
            self.after_all(calls).ledger.processed.contains(h),
        decreases calls.len(),
    {
        if calls.len() > 0 {
            self.law_processed_is_permanent(calls.drop_last(), h);
            self.after_all(calls.drop_last()).law_processed_stays_processed(calls.last(), h);
        }
    }

    /// An accepted outbound request carries the nonce that the bridge held
    /// and raises it by one; no other call changes the nonce.
    pub proof fn law_nonce_counts_sent_requests(self, call: Call)
        ensures
            (match call {
                Call::SendRequest { .. } => match self.accepted(call) {
                    Some(next) => next.data.request_nonce == self.data.request_nonce + 1,
                    None => true,
                },
                _ => self.after(call).data.request_nonce == self.data.request_nonce,
            }),
    {
    }

    /// The nonce never goes down.
    pub proof fn law_nonce_never_decreases(self, calls: Seq<Call>)
        ensures
            self.after_all(calls).data.request_nonce >= self.data.request_nonce,
        decreases calls.len(),
    {
        if calls.len() > 0 {
            self.law_nonce_never_decreases(calls.drop_last());
            self.after_all(calls.drop_last()).law_nonce_counts_sent_requests(calls.last());
        }
    }

    /// Two accepted outbound requests never carry the same nonce, whatever
    /// was asked of the bridge between them.
    pub proof fn law_nonce_never_repeats(self, first: Call, between: Seq<Call>, second: Call)
        requires
            first is SendRequest,
            second is SendRequest,
            self.accepted(first) is Some,
            self.after(first).after_all(between).accepted(second) is Some,
        ensures
            self.data.request_nonce < self.after(first).after_all(between).data.request_nonce,
    {
        self.law_nonce_counts_sent_requests(first);
        self.after(first).law_nonce_never_decreases(between);
    }

    /// What the members of a committee were paid, taken together, is no more
    /// than the fees collected for that committee.
    pub proof fn law_payouts_are_covered(self, committee_id: u128)
        requires
            self.inv(),
            committee_id < self.committees.len(),
        ensures
            self.paid_out_sum(committee_id, self.committees[committee_id as int].members.len())
                <= self.collected_rewards(committee_id),
    {
        let size = self.committees[committee_id as int].members.len();
        assert(self.committees[committee_id as int].valid());
        self.lemma_paid_out_sum_bound(committee_id, size);
        lemma_shares_covered(self.collected_rewards(committee_id), size);
        assert(size * self.member_share(committee_id) <= self.collected_rewards(committee_id));
    }

    /// The payouts of the first `count` members are no more than `count` shares.
    proof fn lemma_paid_out_sum_bound(self, committee_id: u128, count: nat)
        requires
            self.inv(),
            committee_id < self.committees.len(),
            count <= self.committees[committee_id as int].members.len(),
        ensures
            self.paid_out_sum(committee_id, count) <= count * self.member_share(committee_id),
        decreases count,
    {
        if count > 0 {
            self.lemma_paid_out_sum_bound(committee_id, (count - 1) as nat);
            let member = self.committees[committee_id as int].members[count - 1];
            if self.paid_out.contains_key((member, committee_id)) {
            }
            assert(self.paid_out_rewards(committee_id, member) <= self.member_share(committee_id));
            assert(count * self.member_share(committee_id) == (count - 1) * self.member_share(
                committee_id,
            ) + self.member_share(committee_id)) by (nonlinear_arith);
        }
    }

    /// A payout is on record only for a member of the committee.
    pub proof fn law_only_members_are_paid(self, committee_id: u128, account: AccountId)
        requires
            self.inv(),
        ensures
            self.paid_out_rewards(committee_id, account) > 0 ==> self.is_in_committee(
                committee_id,
                account,
            ),
    {
        if self.paid_out.contains_key((account, committee_id)) {
        }
    }

    /// An accepted change of committee raises the committee id by one; no
    /// other call changes it.
    pub proof fn law_committee_id_counts_rotations(self, call: Call)
        requires
            self.inv(),
        ensures
            (match call {
                Call::SetCommittee { .. } => match self.accepted(call) {
                    Some(next) => next.data.committee_id == self.data.committee_id + 1,
                    None => true,
                },
                _ => self.after(call).data.committee_id == self.data.committee_id,
            }),
    {
    }

    /// The committees that were set stay as they are.
    pub proof fn law_committees_stay(self, call: Call, committee_id: u128)
        requires
            committee_id < self.committees.len(),
        ensures
            committee_id < self.after(call).committees.len(),
            self.after(call).committees[committee_id as int]
                == self.committees[committee_id as int],
    {
    }

    /// A supported token is bridged to one token at a time: declaring a pair
    /// replaces the earlier pair of the same token, if there was one, and
    /// leaves the pairs of all other tokens as they are.
    pub proof fn law_token_has_one_destination(
        self,
        caller: AccountId,
        from: [u8; 32],
        to: [u8; 32],
        minter: AccountId,
        bridge: AccountId,
    )
        ensures
            self.add_pair(caller, from, to, minter, bridge) matches Ok(next) ==> ({
                &&& next.supported_pairs.contains_key(from)
                &&& next.supported_pairs[from] == to
                &&& forall|other: [u8; 32]|
                    other != from ==> next.supported_pairs.contains_key(other)
                        == self.supported_pairs.contains_key(other)
                &&& forall|other: [u8; 32]|
                    other != from && self.supported_pairs.contains_key(other)
                        ==> next.supported_pairs[other] == self.supported_pairs[other]
            }),
    {
    }

    /// The funds for subsidies go down only when a vote completes a quorum,
    /// and then by exactly the subsidy.
    pub proof fn law_pocket_money_goes_down_by_subsidy(self, call: Call)
        ensures
            self.after(call).data.pocket_money_balance < self.data.pocket_money_balance ==> ({
                &&& call is ReceiveRequest
                &&& self.after(call).data.pocket_money_balance == self.data.pocket_money_balance
                    - self.data.pocket_money
                &&& self.after(call).ledger.processed.contains(call->request_hash)
                &&& !self.ledger.processed.contains(call->request_hash)
            }),
    {
    }

    /// A second vote of the same guardian on the same request succeeds and
    /// changes nothing.
    pub proof fn law_second_vote_changes_nothing(
        self,
        caller: AccountId,
        request_hash: HashedRequest,
        committee_id: u128,
        dest_token_address: [u8; 32],
        amount: u128,
        dest_receiver_address: [u8; 32],
        request_nonce: u128,
    )
        ensures
            self.receive_request(
                caller,
                request_hash,
                committee_id,
                dest_token_address,
                amount,
                dest_receiver_address,
                request_nonce,
            ) matches Ok((first, _)) ==> first.receive_request(
                caller,
                request_hash,
                committee_id,
                dest_token_address,
                amount,
                dest_receiver_address,
                request_nonce,
            ) matches Ok((second, _)) && second == first,
    {
    }

    /// A vote on a request that was carried out changes nothing, whoever
    /// casts it. It succeeds where the bridge is running, the voter belongs
    /// to the committee and the hash matches the data.
    pub proof fn law_vote_on_processed_changes_nothing(
        self,
        caller: AccountId,
        request_hash: HashedRequest,
        committee_id: u128,
        dest_token_address: [u8; 32],
        amount: u128,
        dest_receiver_address: [u8; 32],
        request_nonce: u128,
    )
        requires
            self.ledger.processed.contains(request_hash),
        ensures
            (match self.receive_request(
                caller,
                request_hash,
                committee_id,
                dest_token_address,
                amount,
                dest_receiver_address,
                request_nonce,
            ) {
                Ok((next, actions)) => next == self && actions.len() == 1 && actions[0] is Emit,
                Err(e) => e == MostError::IsHalted || e == MostError::NotInCommittee || e
                    == MostError::HashDoesNotMatchData,
            }),
            !self.data.is_halted && self.is_in_committee(committee_id, caller) && request_hash
                == crate::hashing::request_hash(
                committee_id,
                dest_token_address,
                amount,
                dest_receiver_address,
                request_nonce,
            ) ==> self.receive_request(
                caller,
                request_hash,
                committee_id,
                dest_token_address,
                amount,
                dest_receiver_address,
                request_nonce,
            ) is Ok,
    {
    }

    /// The vote that the relayer makes of an announced request carries the
    /// hash that the bridge computes from the same data: the bridge never
    /// refuses it for its hash.
    pub proof fn law_relayed_vote_matches(self, caller: AccountId, event: MostEvents)
        ensures
            vote_for(event) matches Some(vote) ==> self.receive_request(
                caller,
                vote.request_hash,
                vote.committee_id,
                vote.dest_token_address,
                vote.amount,
                vote.dest_receiver_address,
                vote.request_nonce,
            ) != Err::<(State, Seq<Action>), MostError>(MostError::HashDoesNotMatchData),
    {
    }

    /// An outbound request of nothing is refused.
    pub proof fn law_zero_amount_is_refused(
        self,
        caller: AccountId,
        transferred_value: u128,
        answer: Option<(u128, u64)>,
        now: u64,
        src_token_address: [u8; 32],
        dest_receiver_address: [u8; 32],
    )
        ensures
            self.send_request(
                caller,
                transferred_value,
                answer,
                now,
                src_token_address,
                0,
                dest_receiver_address,
            ) is Err,
    {
    }

    /// An outbound request to the zero address is refused.
    pub proof fn law_zero_address_is_refused(
        self,
        caller: AccountId,
        transferred_value: u128,
        answer: Option<(u128, u64)>,
        now: u64,
        src_token_address: [u8; 32],
        amount: u128,
        dest_receiver_address: [u8; 32],
    )
        requires
            crate::state::is_zero_address(dest_receiver_address),
        ensures
            self.send_request(
                caller,
                transferred_value,
                answer,
                now,
                src_token_address,
                amount,
                dest_receiver_address,
            ) is Err,
    {
    }

    /// An outbound request that comes with exactly the base fee is accepted
    /// like one that comes with more, and nothing is refunded: the host is
    /// asked to burn the tokens and to announce the request, and no more.
    pub proof fn law_exact_fee_is_accepted(
        self,
        caller: AccountId,
        more: u128,
        answer: Option<(u128, u64)>,
        now: u64,
        src_token_address: [u8; 32],
        amount: u128,
        dest_receiver_address: [u8; 32],
    )
        requires
            self.send_request(
                caller,
                more,
                answer,
                now,
                src_token_address,
                amount,
                dest_receiver_address,
            ) is Ok,
        ensures
            self.base_fee(answer, now) matches Ok(fee) && self.send_request(
                caller,
                fee,
                answer,
                now,
                src_token_address,
                amount,
                dest_receiver_address,
            ) matches Ok((_, actions)) && actions.len() == 2 && actions[0] is Burn
                && actions[1] is Emit,
    {
    }

    /// A committee whose threshold is zero or more than its size, or in
    /// which a member occurs twice, is refused.
    pub proof fn law_bad_committee_is_refused(
        self,
        caller: AccountId,
        committee: Seq<AccountId>,
        signature_threshold: u128,
    )
        requires
            signature_threshold == 0 || signature_threshold > committee.len()
                || !committee.no_duplicates(),
        ensures
            committee_verdict(committee, signature_threshold) is Err,
            self.set_committee(caller, committee, signature_threshold) is Err,
    {
    }

    /// The vote that brings a request's count up to the quorum of the active
    /// committee carries the request out, and a vote that leaves the count
    /// below it does not. Once the request is carried out, no vote counts.
    pub proof fn law_quorum_finalizes_once(
        self,
        caller: AccountId,
        request_hash: HashedRequest,
        committee_id: u128,
        dest_token_address: [u8; 32],
        amount: u128,
        dest_receiver_address: [u8; 32],
        request_nonce: u128,
    )
        requires
            !self.ledger.processed.contains(request_hash),
            self.receive_request(
                caller,
                request_hash,
                committee_id,
                dest_token_address,
                amount,
                dest_receiver_address,
                request_nonce,
            ) is Ok,
        ensures
            ({
                let next = self.receive_request(
                    caller,
                    request_hash,
                    committee_id,
                    dest_token_address,
                    amount,
                    dest_receiver_address,
                    request_nonce,
                )->Ok_0.0;
                &&& next.ledger.processed.contains(request_hash) <==> (
                self.ledger.record_vote(request_hash, caller) matches Ok(
                    (_, VoteAction::Counted { new_count }),
                ) && new_count >= self.threshold())
                &&& next.ledger.processed.contains(request_hash) ==> forall|voter: AccountId|
                    (#[trigger] next.ledger.record_vote(request_hash, voter)) == Ok::<
                        (crate::ledger::LedgerState, VoteAction),
                        MostError,
                    >((next.ledger, VoteAction::AlreadyProcessed))
            }),
    {
    }
}

} // verus!

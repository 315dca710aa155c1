use most::error::MostError;
use most::events::{
    Action, BridgeEvent, RequestAlreadySigned, RequestProcessed, RequestSigned,
    SignedProcessedRequest,
};
use most::hashing::{hash_request_data, AccountId};
use most::ledger::RequestStatus;
use most::most::Most;
use std::collections::HashMap;

const OWNER: AccountId = [1; 32];
const G1: AccountId = [2; 32];
const G2: AccountId = [3; 32];
const G3: AccountId = [4; 32];
const G4: AccountId = [5; 32];
const G5: AccountId = [6; 32];
const STRANGER: AccountId = [7; 32];
const TOKEN: [u8; 32] = [0x12; 32];
const RECEIVER: [u8; 32] = [0x22; 32];
const POCKET_MONEY: u128 = 1000000000000;

fn bridge(pocket_money: u128) -> Most {
    let mut most = Most::new(
        vec![G1, G2, G3, G4, G5],
        3,
        pocket_money,
        50000,
        1000000000000,
        100000000000000,
        30000000000000,
        None,
        OWNER,
    )
    .unwrap();
    most.set_halted(OWNER, false).unwrap();
    most
}

fn vote(most: &mut Most, guardian: AccountId, amount: u128) -> Result<Vec<Action>, MostError> {
    let hash = hash_request_data(0, TOKEN, amount, RECEIVER, 0);
    most.receive_request(guardian, hash, 0, TOKEN, amount, RECEIVER, 0)
}

fn signed(hash: [u8; 32], signer: AccountId) -> Action {
    Action::Emit(BridgeEvent::RequestSigned(RequestSigned { request_hash: hash, signer }))
}

#[test]
fn quorum_on_inbound() {
    let mut most = bridge(POCKET_MONEY);
    let hash = hash_request_data(0, TOKEN, 100, RECEIVER, 0);
    let mut minted: HashMap<AccountId, u128> = HashMap::new();

    assert_eq!(most.request_status(hash), RequestStatus::RequestHashNotKnown);
    assert_eq!(vote(&mut most, G1, 100), Ok(vec![signed(hash, G1)]));
    assert_eq!(most.request_status(hash), RequestStatus::Pending { collected_signatures: 1 });
    assert_eq!(vote(&mut most, G2, 100), Ok(vec![signed(hash, G2)]));
    assert_eq!(most.request_status(hash), RequestStatus::Pending { collected_signatures: 2 });

    let actions = vote(&mut most, G3, 100).unwrap();
    for action in &actions {
        if let Action::Mint { token, to, amount } = action {
            assert_eq!(*token, TOKEN);
            *minted.entry(*to).or_insert(0) += amount;
        }
    }
    assert_eq!(
        actions,
        vec![
            signed(hash, G3),
            Action::Mint { token: TOKEN, to: RECEIVER, amount: 100 },
            Action::Emit(BridgeEvent::RequestProcessed(RequestProcessed {
                request_hash: hash,
                dest_token_address: TOKEN,
            })),
        ]
    );
    assert_eq!(minted[&RECEIVER], 100);
    assert_eq!(most.request_status(hash), RequestStatus::Processed);

    assert_eq!(
        vote(&mut most, G4, 100),
        Ok(vec![Action::Emit(BridgeEvent::SignedProcessedRequest(SignedProcessedRequest {
            request_hash: hash,
            signer: G4,
        }))])
    );
    assert_eq!(most.request_status(hash), RequestStatus::Processed);
    // a guardian who voted before the quorum is told the same
    assert_eq!(
        vote(&mut most, G1, 100),
        Ok(vec![Action::Emit(BridgeEvent::SignedProcessedRequest(SignedProcessedRequest {
            request_hash: hash,
            signer: G1,
        }))])
    );
}

#[test]
fn hash_mismatch() {
    let mut most = bridge(POCKET_MONEY);
    let hash_for_101 = hash_request_data(0, TOKEN, 101, RECEIVER, 0);
    assert_eq!(
        most.receive_request(G1, hash_for_101, 0, TOKEN, 100, RECEIVER, 0),
        Err(MostError::HashDoesNotMatchData)
    );
    assert_eq!(most.request_status(hash_for_101), RequestStatus::RequestHashNotKnown);
    assert_eq!(
        most.request_status(hash_request_data(0, TOKEN, 100, RECEIVER, 0)),
        RequestStatus::RequestHashNotKnown
    );
    // the first vote with the right data is the first vote on record
    assert_eq!(
        most.receive_request(G1, hash_for_101, 0, TOKEN, 101, RECEIVER, 0),
        Ok(vec![signed(hash_for_101, G1)])
    );
    assert_eq!(
        most.request_status(hash_for_101),
        RequestStatus::Pending { collected_signatures: 1 }
    );
}

#[test]
fn hash_mismatch_is_told_by_the_given_hash_alone() {
    let mut most = bridge(POCKET_MONEY);
    let hash = hash_request_data(0, TOKEN, 100, RECEIVER, 0);
    assert_eq!(
        most.receive_hashed_request(G1, hash, [0; 32], 0, TOKEN, 100, RECEIVER),
        Err(MostError::HashDoesNotMatchData)
    );
    assert_eq!(
        most.receive_hashed_request(G1, [5; 32], [5; 32], 0, TOKEN, 100, RECEIVER),
        Ok(vec![signed([5; 32], G1)])
    );
    assert_eq!(most.request_status([5; 32]), RequestStatus::Pending { collected_signatures: 1 });
}

#[test]
fn second_vote_of_a_guardian_changes_nothing() {
    let mut most = bridge(POCKET_MONEY);
    let hash = hash_request_data(0, TOKEN, 100, RECEIVER, 0);
    assert_eq!(vote(&mut most, G1, 100), Ok(vec![signed(hash, G1)]));
    assert_eq!(
        vote(&mut most, G1, 100),
        Ok(vec![Action::Emit(BridgeEvent::RequestAlreadySigned(RequestAlreadySigned {
            request_hash: hash,
            signer: G1,
        }))])
    );
    assert_eq!(most.request_status(hash), RequestStatus::Pending { collected_signatures: 1 });
}

#[test]
fn vote_of_a_stranger_is_refused() {
    let mut most = bridge(POCKET_MONEY);
    let hash = hash_request_data(0, TOKEN, 100, RECEIVER, 0);
    assert_eq!(vote(&mut most, STRANGER, 100), Err(MostError::NotInCommittee));
    assert_eq!(vote(&mut most, OWNER, 100), Err(MostError::NotInCommittee));
    // there is no committee 1 yet
    let hash_1 = hash_request_data(1, TOKEN, 100, RECEIVER, 0);
    assert_eq!(
        most.receive_request(G1, hash_1, 1, TOKEN, 100, RECEIVER, 0),
        Err(MostError::NotInCommittee)
    );
    assert_eq!(most.request_status(hash), RequestStatus::RequestHashNotKnown);
    assert_eq!(most.only_committee_member(0, STRANGER), Err(MostError::NotInCommittee));
    assert_eq!(most.only_committee_member(0, G5), Ok(()));
}

#[test]
fn vote_on_a_halted_bridge_is_refused() {
    let mut most = bridge(POCKET_MONEY);
    most.set_halted(OWNER, true).unwrap();
    assert_eq!(vote(&mut most, G1, 100), Err(MostError::IsHalted));
    assert_eq!(vote(&mut most, STRANGER, 100), Err(MostError::IsHalted));
}

#[test]
fn pocket_money() {
    let mut most = bridge(POCKET_MONEY);
    assert_eq!(most.get_pocket_money(), Ok(POCKET_MONEY));
    assert_eq!(most.get_pocket_money_balance(), Ok(0));
    assert_eq!(most.fund_pocket_money(10 * POCKET_MONEY), Ok(()));
    assert_eq!(most.get_pocket_money_balance(), Ok(10 * POCKET_MONEY));
    let hash = hash_request_data(0, TOKEN, 100, RECEIVER, 0);
    let mut native: HashMap<AccountId, u128> = HashMap::new();

    vote(&mut most, G1, 100).unwrap();
    vote(&mut most, G2, 100).unwrap();
    assert_eq!(most.get_pocket_money_balance(), Ok(10 * POCKET_MONEY));
    let actions = vote(&mut most, G3, 100).unwrap();
    for action in &actions {
        if let Action::TryTransfer { to, amount } = action {
            *native.entry(*to).or_insert(0) += amount;
        }
    }
    assert_eq!(
        actions,
        vec![
            signed(hash, G3),
            Action::Mint { token: TOKEN, to: RECEIVER, amount: 100 },
            Action::TryTransfer { to: RECEIVER, amount: POCKET_MONEY },
            Action::Emit(BridgeEvent::RequestProcessed(RequestProcessed {
                request_hash: hash,
                dest_token_address: TOKEN,
            })),
        ]
    );
    assert_eq!(native[&RECEIVER], POCKET_MONEY);
    assert_eq!(most.get_pocket_money_balance(), Ok(9 * POCKET_MONEY));
}

#[test]
fn mint_goes_through_without_pocket_money() {
    let mut most = bridge(POCKET_MONEY);
    most.fund_pocket_money(POCKET_MONEY - 1).unwrap();
    vote(&mut most, G1, 100).unwrap();
    vote(&mut most, G2, 100).unwrap();
    let actions = vote(&mut most, G3, 100).unwrap();
    assert_eq!(actions.len(), 3);
    assert_eq!(actions[1], Action::Mint { token: TOKEN, to: RECEIVER, amount: 100 });
    assert!(!actions.iter().any(|action| matches!(action, Action::TryTransfer { .. })));
    assert_eq!(most.get_pocket_money_balance(), Ok(POCKET_MONEY - 1));
}

#[test]
fn pocket_money_is_paid_down_to_the_last_unit() {
    let mut most = bridge(POCKET_MONEY);
    most.fund_pocket_money(POCKET_MONEY).unwrap();
    vote(&mut most, G1, 100).unwrap();
    vote(&mut most, G2, 100).unwrap();
    let actions = vote(&mut most, G3, 100).unwrap();
    assert_eq!(actions[2], Action::TryTransfer { to: RECEIVER, amount: POCKET_MONEY });
    assert_eq!(most.get_pocket_money_balance(), Ok(0));
}

#[test]
fn funding_that_does_not_fit_is_refused() {
    let mut most = bridge(POCKET_MONEY);
    assert_eq!(most.fund_pocket_money(u128::MAX), Ok(()));
    assert_eq!(most.fund_pocket_money(1), Err(MostError::Arithmetic));
    assert_eq!(most.get_pocket_money_balance(), Ok(u128::MAX));
    assert_eq!(most.fund_pocket_money(0), Ok(()));
}

#[test]
fn quorum_is_that_of_the_active_committee() {
    let mut most = bridge(0);
    let hash = hash_request_data(0, TOKEN, 100, RECEIVER, 0);
    vote(&mut most, G1, 100).unwrap();
    assert_eq!(most.request_status(hash), RequestStatus::Pending { collected_signatures: 1 });

    most.set_halted(OWNER, true).unwrap();
    most.set_committee(OWNER, vec![STRANGER, OWNER], 2).unwrap();
    most.set_halted(OWNER, false).unwrap();
    assert_eq!(most.get_current_committee_id(), Ok(1));

    // the guardians of committee 0 still vote on its requests,
    // and the second vote meets the quorum of committee 1
    let actions = vote(&mut most, G2, 100).unwrap();
    assert_eq!(actions.len(), 4);
    assert_eq!(actions[1], Action::Mint { token: TOKEN, to: RECEIVER, amount: 100 });
    assert_eq!(actions[2], Action::TryTransfer { to: RECEIVER, amount: 0 });
    assert_eq!(most.request_status(hash), RequestStatus::Processed);
    // a member of committee 1 is no member of committee 0
    assert_eq!(vote(&mut most, STRANGER, 100), Err(MostError::NotInCommittee));
}

#[test]
fn threshold_of_one_finalizes_at_once() {
    let mut most = Most::new(vec![G1], 1, 0, 1, 1, 1, 1, None, OWNER).unwrap();
    most.set_halted(OWNER, false).unwrap();
    let hash = hash_request_data(0, TOKEN, 100, RECEIVER, 0);
    let actions = vote(&mut most, G1, 100).unwrap();
    assert_eq!(actions[0], signed(hash, G1));
    assert_eq!(most.request_status(hash), RequestStatus::Processed);
}

#[test]
fn processed_request_stays_processed() {
    let mut most = bridge(POCKET_MONEY);
    let hash = hash_request_data(0, TOKEN, 100, RECEIVER, 0);
    vote(&mut most, G1, 100).unwrap();
    vote(&mut most, G2, 100).unwrap();
    vote(&mut most, G3, 100).unwrap();
    assert_eq!(most.request_status(hash), RequestStatus::Processed);

    // votes, funding, a halt, a new committee and a new owner leave it processed
    vote(&mut most, G4, 100).unwrap();
    vote(&mut most, G1, 100).unwrap();
    vote(&mut most, G1, 7).unwrap();
    most.fund_pocket_money(5).unwrap();
    most.set_halted(OWNER, true).unwrap();
    most.set_committee(OWNER, vec![STRANGER], 1).unwrap();
    most.transfer_ownership(OWNER, STRANGER).unwrap();
    most.accept_ownership(STRANGER).unwrap();
    most.set_halted(STRANGER, false).unwrap();
    assert_eq!(vote(&mut most, G5, 100).unwrap().len(), 1);
    assert_eq!(most.request_status(hash), RequestStatus::Processed);
    // and the other request, which G1 voted on, is pending with its one vote
    assert_eq!(
        most.request_status(hash_request_data(0, TOKEN, 7, RECEIVER, 0)),
        RequestStatus::Pending { collected_signatures: 1 }
    );
}

#[test]
fn count_is_the_number_of_guardians_who_voted() {
    let mut most = Most::new(vec![G1, G2, G3, G4, G5], 5, 0, 1, 1, 1, 1, None, OWNER).unwrap();
    most.set_halted(OWNER, false).unwrap();
    let hash = hash_request_data(0, TOKEN, 100, RECEIVER, 0);
    let mut voted = 0;
    for guardian in [G1, G1, G2, G1, G3, G3, G2, G4] {
        let counted = vote(&mut most, guardian, 100).unwrap() == vec![signed(hash, guardian)];
        if counted {
            voted += 1;
        }
        assert_eq!(
            most.request_status(hash),
            RequestStatus::Pending { collected_signatures: voted }
        );
    }
    assert_eq!(voted, 4);
    assert_eq!(vote(&mut most, G5, 100).unwrap().len(), 4);
    assert_eq!(most.request_status(hash), RequestStatus::Processed);
}

use most::error::MostError;
use most::hashing::AccountId;
use most::most::Most;
use most::ownable::Ownable2StepError;

const THRESHOLD: u128 = 3;
const POCKET_MONEY: u128 = 1000000000000;
const RELAY_GAS_USAGE: u128 = 50000;
const MIN_FEE: u128 = 1000000000000;
const MAX_FEE: u128 = 100000000000000;
const DEFAULT_FEE: u128 = 30000000000000;

const ALICE: AccountId = [1; 32];
const BOB: AccountId = [2; 32];
const CHARLIE: AccountId = [3; 32];
const DJANGO: AccountId = [4; 32];
const EVE: AccountId = [5; 32];
const FRANK: AccountId = [6; 32];

fn guardian_accounts() -> Vec<AccountId> {
    vec![BOB, CHARLIE, DJANGO, EVE, FRANK]
}

fn bridge() -> Most {
    Most::new(
        guardian_accounts(),
        THRESHOLD,
        POCKET_MONEY,
        RELAY_GAS_USAGE,
        MIN_FEE,
        MAX_FEE,
        DEFAULT_FEE,
        None,
        ALICE,
    )
    .expect("Threshold is valid.")
}

#[test]
fn new_fails_on_zero_threshold() {
    assert_eq!(
        Most::new(
            guardian_accounts(),
            0,
            POCKET_MONEY,
            RELAY_GAS_USAGE,
            MIN_FEE,
            MAX_FEE,
            DEFAULT_FEE,
            None,
            ALICE
        )
        .expect_err("Threshold is zero, instantiation should fail."),
        MostError::InvalidThreshold
    );
}

#[test]
fn new_fails_on_threshold_large_than_guardians() {
    assert_eq!(
        Most::new(
            guardian_accounts(),
            (guardian_accounts().len() + 1) as u128,
            POCKET_MONEY,
            RELAY_GAS_USAGE,
            MIN_FEE,
            MAX_FEE,
            DEFAULT_FEE,
            None,
            ALICE
        )
        .expect_err("Threshold is larger than guardians, instantiation should fail."),
        MostError::InvalidThreshold
    );
}

#[test]
fn new_sets_caller_as_owner() {
    let most = bridge();

    assert_eq!(most.ensure_owner(ALICE), Ok(()));
    assert_eq!(
        most.ensure_owner(guardian_accounts()[0]),
        Err(Ownable2StepError::CallerNotOwner(guardian_accounts()[0]))
    );
}

#[test]
fn new_sets_correct_guardians() {
    let most = bridge();

    for account in guardian_accounts() {
        assert!(most.is_in_committee(most.get_current_committee_id().unwrap(), account));
    }
    assert!(!most.is_in_committee(most.get_current_committee_id().unwrap(), ALICE));
}

#[test]
fn set_owner_works() {
    let mut most = bridge();
    assert_eq!(most.ensure_owner(BOB), Err(Ownable2StepError::CallerNotOwner(BOB)));
    assert_eq!(most.ensure_owner(ALICE), Ok(()));
    assert!(most.transfer_ownership(ALICE, BOB).is_ok());
    // check that bob has to accept before being granted ownership
    assert_eq!(most.ensure_owner(BOB), Err(Ownable2StepError::CallerNotOwner(BOB)));
    // check that only bob can accept the pending new ownership
    assert_eq!(
        most.accept_ownership(CHARLIE),
        Err(Ownable2StepError::CallerNotPendingOwner(CHARLIE))
    );
    assert!(most.accept_ownership(BOB).is_ok());
    assert_eq!(most.ensure_owner(BOB), Ok(()));
}

#[test]
fn add_guardian_works() {
    let mut most = bridge();

    assert!(!most.is_in_committee(most.get_current_committee_id().unwrap(), ALICE));
    assert_eq!(most.set_committee(ALICE, vec![ALICE], 1), Ok(()));
    assert!(most.is_in_committee(most.get_current_committee_id().unwrap(), ALICE));
}

#[test]
fn remove_guardian_works() {
    let mut most = bridge();

    assert!(most.is_in_committee(most.get_current_committee_id().unwrap(), BOB));
    assert_eq!(most.set_committee(ALICE, vec![ALICE], 1), Ok(()));
    assert!(!most.is_in_committee(most.get_current_committee_id().unwrap(), BOB));
}

use most::error::PSP22Error;
use most::hashing::AccountId;
use most::ownable::Ownable2StepError;
use most::token::{
    Approval, PSP22Event, Token, TokenEvent, Transfer, TransferOwnershipInitiated,
};

const INIT_SUPPLY_TEST: u128 = 1_000_000;
const ALICE: AccountId = [1; 32];
const BOB: AccountId = [2; 32];
const CHARLIE: AccountId = [3; 32];

fn init_contract() -> Token {
    Token::new(
        Some(String::from("MOST wrapped Ether")),
        Some(String::from("mETH")),
        18,
        CHARLIE,
        ALICE,
    )
}

#[test]
fn setting_owner_works() {
    let mut token = init_contract();

    assert_eq!(token.get_owner(), Ok(ALICE));
    assert!(token.transfer_ownership(ALICE, BOB).is_ok());
    assert!(token.accept_ownership(BOB).is_ok());
    assert_eq!(token.get_owner(), Ok(BOB));
}

#[test]
fn non_owner_cannot_change_owner() {
    let mut token = init_contract();

    assert_eq!(
        token.transfer_ownership(BOB, ALICE),
        Err(Ownable2StepError::CallerNotOwner(BOB)),
    );
}

#[test]
fn owner_can_set_minter_burner() {
    let mut token = init_contract();

    assert!(token.set_minter_burner(ALICE, BOB).is_ok());
    assert_eq!(token.minter(), BOB);
    assert_eq!(token.burner(), BOB);
}

#[test]
fn non_owner_cannot_set_minter_burner() {
    let mut token = init_contract();

    assert_eq!(
        token.set_minter_burner(BOB, BOB),
        Err(PSP22Error::Custom(String::from("Caller has to be the owner.",)))
    );
    assert_eq!(token.minter(), CHARLIE);
}

fn init_ledger(init_supply: u128) -> psp22::PSP22Data {
    ink::env::test::set_callee::<ink::env::DefaultEnvironment>([9; 32].into());
    let (data, _) = psp22::PSP22Data::new(init_supply, ALICE.into());
    data
}

#[test]
fn minter_can_mint() {
    let token = init_contract();
    let mut data = init_ledger(INIT_SUPPLY_TEST);
    let bob_balance_before = data.balance_of(BOB.into());

    assert!(token.ensure_minter(CHARLIE).is_ok());
    assert!(data.mint(BOB.into(), 100).is_ok());
    assert_eq!(data.balance_of(BOB.into()), bob_balance_before + 100);
}

#[test]
fn non_minter_cannot_mint() {
    let token = init_contract();

    assert_eq!(
        token.ensure_minter(BOB),
        Err(PSP22Error::Custom(String::from("Caller has to be the minter.")))
    );
    assert_eq!(
        token.ensure_minter(ALICE),
        Err(PSP22Error::Custom(String::from("Caller has to be the minter.")))
    );
}

#[test]
fn burner_can_burn() {
    let token = init_contract();
    let mut data = init_ledger(INIT_SUPPLY_TEST);

    data.transfer(ALICE.into(), CHARLIE.into(), 100).unwrap();

    let charlie_balance_before = data.balance_of(CHARLIE.into());
    assert!(token.ensure_burner(CHARLIE).is_ok());
    assert!(data.burn(CHARLIE.into(), 100).is_ok());
    assert_eq!(data.balance_of(CHARLIE.into()), charlie_balance_before - 100);
}

#[test]
fn non_burner_cannot_burn() {
    let token = init_contract();

    assert_eq!(
        token.ensure_burner(BOB),
        Err(PSP22Error::Custom(String::from("Caller has to be the burner.")))
    );
    assert_eq!(
        token.ensure_burner(ALICE),
        Err(PSP22Error::Custom(String::from("Caller has to be the burner.")))
    );
}

#[test]
fn token_describes_itself() {
    let token = init_contract();
    assert_eq!(token.token_name(), Some(String::from("MOST wrapped Ether")));
    assert_eq!(token.token_symbol(), Some(String::from("mETH")));
    assert_eq!(token.token_decimals(), 18);
    assert_eq!(token.ensure_owner(ALICE), Ok(()));
    assert_eq!(
        token.ensure_owner(CHARLIE),
        Err(PSP22Error::Custom(String::from("Caller has to be the owner.")))
    );
    let nameless = Token::new(None, None, 0, CHARLIE, ALICE);
    assert_eq!(nameless.token_name(), None);
    assert_eq!(nameless.token_symbol(), None);
}

#[test]
fn token_announces_what_the_ledger_reports() {
    let token = init_contract();
    let reported = vec![
        PSP22Event::Approval { owner: ALICE, spender: BOB, amount: 5 },
        PSP22Event::Transfer { from: Some(ALICE), to: Some(CHARLIE), value: 7 },
        PSP22Event::Transfer { from: None, to: Some(BOB), value: 9 },
    ];
    assert_eq!(
        token.emit_events(reported),
        vec![
            TokenEvent::Approval(Approval { owner: ALICE, spender: BOB, amount: 5 }),
            TokenEvent::Transfer(Transfer { from: Some(ALICE), to: Some(CHARLIE), value: 7 }),
            TokenEvent::Transfer(Transfer { from: None, to: Some(BOB), value: 9 }),
        ]
    );
    assert_eq!(token.emit_events(vec![]), vec![]);
}

#[test]
fn token_ownership_changes_hands_in_two_steps() {
    let mut token = init_contract();
    assert_eq!(token.get_pending_owner(), Err(Ownable2StepError::NoPendingOwner));
    assert_eq!(token.accept_ownership(BOB), Err(Ownable2StepError::NoPendingOwner));
    assert_eq!(
        token.transfer_ownership(ALICE, BOB),
        Ok(TokenEvent::TransferOwnershipInitiated(TransferOwnershipInitiated { new_owner: BOB }))
    );
    assert_eq!(token.get_pending_owner(), Ok(BOB));
    assert_eq!(token.get_owner(), Ok(ALICE));
    assert_eq!(
        token.accept_ownership(CHARLIE),
        Err(Ownable2StepError::CallerNotPendingOwner(CHARLIE))
    );
    assert_eq!(
        token.accept_ownership(BOB),
        Ok(TokenEvent::TransferOwnershipInitiated(TransferOwnershipInitiated { new_owner: BOB }))
    );
    assert_eq!(token.get_owner(), Ok(BOB));
    assert!(token.set_minter_burner(BOB, ALICE).is_ok());
    assert_eq!(token.minter(), ALICE);
}

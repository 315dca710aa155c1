//! The bridged token: who may mint and burn it, who owns it, and what it
//! announces. The balances and allowances are kept by the chain's ledger,
//! which is asked once the token has let the caller pass.

use crate::error::PSP22Error;
use crate::hashing::AccountId;
use crate::ownable::{Ownable2StepData, Ownable2StepError, Ownable2StepResult};
use crate::table::Key;
use vstd::prelude::*;

verus! {

/// An owner allowed a spender to move up to `amount` of its tokens.
#[derive(Debug, Clone, Copy, PartialEq, Eq)]
pub struct Approval {
    pub owner: AccountId,
    pub spender: AccountId,
    pub amount: u128,
}

/// Tokens moved: minted where `from` is `None`, burned where `to` is `None`.
#[derive(Debug, Clone, Copy, PartialEq, Eq)]
pub struct Transfer {
    pub from: Option<AccountId>,
    pub to: Option<AccountId>,
    pub value: u128,
}

/// The owner named a successor.
#[derive(Debug, Clone, Copy, PartialEq, Eq)]
pub struct TransferOwnershipInitiated {
    pub new_owner: AccountId,
}

/// The named successor became the owner.
#[derive(Debug, Clone, Copy, PartialEq, Eq)]
pub struct TransferOwnershipAccepted {
    pub new_owner: AccountId,
}

/// What the ledger reports of a change that it made.
#[derive(Debug, Clone, Copy, PartialEq, Eq)]
pub enum PSP22Event {
    Transfer { from: Option<AccountId>, to: Option<AccountId>, value: u128 },
    Approval { owner: AccountId, spender: AccountId, amount: u128 },
}

/// Any event of the token.
#[derive(Debug, Clone, Copy, PartialEq, Eq)]
pub enum TokenEvent {
    Approval(Approval),
    Transfer(Transfer),
    TransferOwnershipInitiated(TransferOwnershipInitiated),
    TransferOwnershipAccepted(TransferOwnershipAccepted),
}

/// The token event that announces what the ledger reports.
pub open spec fn announced(event: PSP22Event) -> TokenEvent {
    match event {
        PSP22Event::Transfer { from, to, value } => TokenEvent::Transfer(
            Transfer { from, to, value },
        ),
        PSP22Event::Approval { owner, spender, amount } => TokenEvent::Approval(
            Approval { owner, spender, amount },
        ),
    }
}

/// Whether `r` refuses with exactly these words.
pub open spec fn refused_with<T>(r: Result<T, PSP22Error>, words: Seq<char>) -> bool {
    r matches Err(PSP22Error::Custom(text)) && text@ == words
}

/// The token's roles and description.
#[derive(Debug, Clone)]
pub struct Token {
    pub ownable_data: Ownable2StepData,
    pub name: Option<String>,
    pub symbol: Option<String>,
    pub decimals: u8,
    pub minter_burner: AccountId,
}

impl Token {
    /// A token owned by `caller`, which `minter_burner` may mint and burn.
    pub fn new(
        name: Option<String>,
        symbol: Option<String>,
        decimals: u8,
        minter_burner: AccountId,
        caller: AccountId,
    ) -> (token: Self)
        ensures
            token.ownable_data == (Ownable2StepData { owner: caller, pending_owner: None }),
            token.name == name,
            token.symbol == symbol,
            token.decimals == decimals,
            token.minter_burner == minter_burner,
    {
        Token { ownable_data: Ownable2StepData::new(caller), name, symbol, decimals, minter_burner }
    }

    /// Names the account that may mint and burn. Only the owner may do so.
    pub fn set_minter_burner(&mut self, caller: AccountId, new_minter_burner: AccountId) -> (r:
        Result<(), PSP22Error>)
        ensures
            caller == old(self).ownable_data.owner ==> r is Ok && *final(self) == (Token {
                minter_burner: new_minter_burner,
                ..*old(self)
            }),
            caller != old(self).ownable_data.owner ==> refused_with(
                r,
                "Caller has to be the owner."@,
            ) && *final(self) == *old(self),
    {
        match self.ensure_owner(caller) {
            Ok(()) => {
                self.minter_burner = new_minter_burner;
                Ok(())
            },
            Err(e) => Err(e),
        }
    }

    /// Succeeds exactly when `caller` is the owner.
    pub fn ensure_owner(&self, caller: AccountId) -> (r: Result<(), PSP22Error>)
        ensures
            caller == self.ownable_data.owner ==> r is Ok,
            caller != self.ownable_data.owner ==> refused_with(r, "Caller has to be the owner."@),
    {
        match self.ownable_data.ensure_owner(caller) {
            Ok(()) => Ok(()),
            Err(_) => Err(PSP22Error::Custom("Caller has to be the owner.".to_owned())),
        }
    }

    /// Succeeds exactly when `caller` may mint.
    pub fn ensure_minter(&self, caller: AccountId) -> (r: Result<(), PSP22Error>)
        ensures
            caller == self.minter_burner ==> r is Ok,
            caller != self.minter_burner ==> refused_with(r, "Caller has to be the minter."@),
    {
        if !caller.same(&self.minter()) {
            Err(PSP22Error::Custom("Caller has to be the minter.".to_owned()))
        } else {
            Ok(())
        }
    }

    /// Succeeds exactly when `caller` may burn.
    pub fn ensure_burner(&self, caller: AccountId) -> (r: Result<(), PSP22Error>)
        ensures
            caller == self.minter_burner ==> r is Ok,
            caller != self.minter_burner ==> refused_with(r, "Caller has to be the burner."@),
    {
        if !caller.same(&self.burner()) {
            Err(PSP22Error::Custom("Caller has to be the burner.".to_owned()))
        } else {
            Ok(())
        }
    }

    /// The token events that announce what the ledger reports, in the same order.
    pub fn emit_events(&self, events: Vec<PSP22Event>) -> (emitted: Vec<TokenEvent>)
        ensures
            emitted@ == events@.map_values(|event: PSP22Event| announced(event)),
    {
        let mut emitted: Vec<TokenEvent> = Vec::new();
        let mut i: usize = 0;
        while i < events.len()
            invariant
                i <= events@.len(),
                emitted@ == events@.take(i as int).map_values(
                    |event: PSP22Event| announced(event),
                ),
            decreases events@.len() - i,
        {
            let event = match events[i] {
                PSP22Event::Transfer { from, to, value } => TokenEvent::Transfer(
                    Transfer { from, to, value },
                ),
                PSP22Event::Approval { owner, spender, amount } => TokenEvent::Approval(
                    Approval { owner, spender, amount },
                ),
            };
            emitted.push(event);
            assert(emitted@ =~= events@.take(i + 1).map_values(
                |event: PSP22Event| announced(event),
            ));
            i = i + 1;
        }
        assert(events@.take(events@.len() as int) == events@);
        emitted
    }

    /// The token's name.
    pub fn token_name(&self) -> (name: Option<String>)
        ensures
            name == self.name,
    {
        self.name.clone()
    }

    /// The token's symbol.
    pub fn token_symbol(&self) -> (symbol: Option<String>)
        ensures
            symbol == self.symbol,
    {
        self.symbol.clone()
    }

    /// The number of decimals in which amounts of the token are shown.
    pub fn token_decimals(&self) -> (decimals: u8)
        ensures
            decimals == self.decimals,
    {
        self.decimals
    }

    /// The account that may mint.
    pub fn minter(&self) -> (account: AccountId)
        ensures
            account == self.minter_burner,
    {
        self.minter_burner
    }

    /// The account that may burn.
    pub fn burner(&self) -> (account: AccountId)
        ensures
            account == self.minter_burner,
    {
        self.minter_burner
    }

    /// The owner of the token.
    pub fn get_owner(&self) -> (r: Ownable2StepResult<AccountId>)
        ensures
            r == Ok::<AccountId, Ownable2StepError>(self.ownable_data.owner),
    {
        self.ownable_data.get_owner()
    }

    /// The successor that the owner named, or `NoPendingOwner`.
    pub fn get_pending_owner(&self) -> (r: Ownable2StepResult<AccountId>)
        ensures
            r == (match self.ownable_data.pending_owner {
                Some(pending) => Ok::<AccountId, Ownable2StepError>(pending),
                None => Err(Ownable2StepError::NoPendingOwner),
            }),
    {
        self.ownable_data.get_pending_owner()
    }

    /// Names `new_owner` as the next owner and announces it. Only the owner
    /// may do so.
    pub fn transfer_ownership(&mut self, caller: AccountId, new_owner: AccountId) -> (r:
        Ownable2StepResult<TokenEvent>)
        ensures
            (match old(self).ownable_data.after_transfer(caller, new_owner) {
                Ok(next) => r == Ok::<TokenEvent, Ownable2StepError>(
                    TokenEvent::TransferOwnershipInitiated(
                        TransferOwnershipInitiated { new_owner },
                    ),
                ) && *final(self) == (Token { ownable_data: next, ..*old(self) }),
                Err(e) => r == Err::<TokenEvent, Ownable2StepError>(e) && *final(self) == *old(
                    self,
                ),
            }),
    {
        match self.ownable_data.transfer_ownership(caller, new_owner) {
            Ok(()) => Ok(
                TokenEvent::TransferOwnershipInitiated(TransferOwnershipInitiated { new_owner }),
            ),
            Err(e) => Err(e),
        }
    }

    /// Makes `caller` the owner, if `caller` is the successor that the owner
    /// named. The token announces this with the same event as the naming of
    /// a successor.
    pub fn accept_ownership(&mut self, caller: AccountId) -> (r: Ownable2StepResult<TokenEvent>)
        ensures
            (match old(self).ownable_data.after_accept(caller) {
                Ok(next) => r == Ok::<TokenEvent, Ownable2StepError>(
                    TokenEvent::TransferOwnershipInitiated(
                        TransferOwnershipInitiated { new_owner: caller },
                    ),
                ) && *final(self) == (Token { ownable_data: next, ..*old(self) }),
                Err(e) => r == Err::<TokenEvent, Ownable2StepError>(e) && *final(self) == *old(
                    self,
                ),
            }),
    {
        match self.ownable_data.accept_ownership(caller) {
            Ok(()) => Ok(
                TokenEvent::TransferOwnershipInitiated(
                    TransferOwnershipInitiated { new_owner: caller },
                ),
            ),
            Err(e) => Err(e),
        }
    }
}

} // verus!

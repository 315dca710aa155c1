//! Two-step ownership: the owner names a successor, who becomes owner only by
//! accepting.

use crate::hashing::AccountId;
use crate::table::Key;
use vstd::prelude::*;

verus! {

/// Why an ownership operation was refused.
#[derive(Debug, PartialEq, Eq, Clone)]
pub enum Ownable2StepError {
    /// The caller is not the owner.
    CallerNotOwner(AccountId),
    /// The caller tried to accept ownership without being the pending owner.
    CallerNotPendingOwner(AccountId),
    /// Nobody has been named as the next owner.
    NoPendingOwner,
    /// Another failure, described in words.
    Custom(String),
}

pub type Ownable2StepResult<T> = Result<T, Ownable2StepError>;

/// The current owner and the successor that the owner has named, if any.
#[derive(Debug, Clone, Copy)]
pub struct Ownable2StepData {
    pub owner: AccountId,
    pub pending_owner: Option<AccountId>,
}

impl Ownable2StepData {
    /// The outcome of asking whether `caller` is the owner.
    pub open spec fn check_owner(self, caller: AccountId) -> Ownable2StepResult<()> {
        if caller == self.owner {
            Ok(())
        } else {
            Err(Ownable2StepError::CallerNotOwner(caller))
        }
    }

    /// The outcome of `caller` naming `new_owner` as successor.
    pub open spec fn after_transfer(self, caller: AccountId, new_owner: AccountId)
        -> Ownable2StepResult<Ownable2StepData> {
        if caller == self.owner {
            Ok(Ownable2StepData { owner: self.owner, pending_owner: Some(new_owner) })
        } else {
            Err(Ownable2StepError::CallerNotOwner(caller))
        }
    }

    /// The outcome of `caller` accepting ownership.
    pub open spec fn after_accept(self, caller: AccountId) -> Ownable2StepResult<Ownable2StepData> {
        match self.pending_owner {
            None => Err(Ownable2StepError::NoPendingOwner),
            Some(pending) => if caller == pending {
                Ok(Ownable2StepData { owner: pending, pending_owner: None })
            } else {
                Err(Ownable2StepError::CallerNotPendingOwner(caller))
            },
        }
    }

    /// Ownership held by `owner`, with no successor named.
    pub fn new(owner: AccountId) -> (data: Self)
        ensures
            data == (Ownable2StepData { owner, pending_owner: None }),
    {
        Ownable2StepData { owner, pending_owner: None }
    }

    /// Names `new_owner` as successor. Only the owner may do so, and remains
    /// owner until the successor accepts.
    pub fn transfer_ownership(&mut self, caller: AccountId, new_owner: AccountId) -> (r:
        Ownable2StepResult<()>)
        ensures
            (match old(self).after_transfer(caller, new_owner) {
                Ok(next) => r == Ok::<(), Ownable2StepError>(()) && *final(self) == next,
                Err(e) => r == Err::<(), Ownable2StepError>(e) && *final(self) == *old(self),
            }),
    {
        match self.ensure_owner(caller) {
            Ok(()) => {
                self.pending_owner = Some(new_owner);
                Ok(())
            },
            Err(e) => Err(e),
        }
    }

    /// Makes `caller` the owner, if `caller` is the named successor.
    pub fn accept_ownership(&mut self, caller: AccountId) -> (r: Ownable2StepResult<()>)
        ensures
            (match old(self).after_accept(caller) {
                Ok(next) => r == Ok::<(), Ownable2StepError>(()) && *final(self) == next,
                Err(e) => r == Err::<(), Ownable2StepError>(e) && *final(self) == *old(self),
            }),
    {
        match self.pending_owner {
            None => Err(Ownable2StepError::NoPendingOwner),
            Some(pending) => {
                if caller.same(&pending) {
                    self.owner = pending;
                    self.pending_owner = None;
                    Ok(())
                } else {
                    Err(Ownable2StepError::CallerNotPendingOwner(caller))
                }
            },
        }
    }

    /// The current owner.
    pub fn get_owner(&self) -> (r: Ownable2StepResult<AccountId>)
        ensures
            r == Ok::<AccountId, Ownable2StepError>(self.owner),
    {
        Ok(self.owner)
    }

    /// The named successor, or `NoPendingOwner`.
    pub fn get_pending_owner(&self) -> (r: Ownable2StepResult<AccountId>)
        ensures
            r == (match self.pending_owner {
                Some(pending) => Ok::<AccountId, Ownable2StepError>(pending),
                None => Err(Ownable2StepError::NoPendingOwner),
            }),
    {
        match self.pending_owner {
            Some(pending) => Ok(pending),
            None => Err(Ownable2StepError::NoPendingOwner),
        }
    }

    /// Succeeds exactly when `caller` is the owner.
    pub fn ensure_owner(&self, caller: AccountId) -> (r: Ownable2StepResult<()>)
        ensures
            r == self.check_owner(caller),
    {
        if caller.same(&self.owner) {
            Ok(())
        } else {
            Err(Ownable2StepError::CallerNotOwner(caller))
        }
    }
}

} // verus!

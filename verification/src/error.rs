//! The errors that the bridge and the token report.

use crate::ownable::Ownable2StepError;
use vstd::prelude::*;
use vstd::std_specs::convert::FromSpecImpl;

verus! {

/// Why a token operation was refused.
#[derive(Debug, PartialEq, Eq, Clone)]
pub enum PSP22Error {
    /// A failure described in words.
    Custom(String),
    /// The account holds less than the amount to move.
    InsufficientBalance,
    /// The spender was allowed less than the amount to move.
    InsufficientAllowance,
    /// The recipient is the zero address.
    ZeroRecipientAddress,
    /// The sender is the zero address.
    ZeroSenderAddress,
    /// The recipient refused the transfer.
    SafeTransferCheckFailed(String),
}

/// Why a bridge operation was refused.
#[derive(Debug, PartialEq, Eq, Clone)]
pub enum MostError {
    Constructor,
    InvalidThreshold,
    DuplicateCommitteeMember,
    ZeroTransferAmount,
    NotInCommittee,
    NoSuchCommittee,
    HashDoesNotMatchData,
    PSP22(PSP22Error),
    Ownable(Ownable2StepError),
    UnsupportedPair,
    InkEnvError(String),
    RequestAlreadySigned,
    BaseFeeTooLow,
    Arithmetic,
    CorruptedStorage,
    IsHalted,
    HaltRequired,
    NoMintPermission,
    ZeroAddress,
}

impl From<PSP22Error> for MostError {
    fn from(inner: PSP22Error) -> (e: Self) {
        MostError::PSP22(inner)
    }
}

impl FromSpecImpl<PSP22Error> for MostError {
    open spec fn obeys_from_spec() -> bool {
        true
    }

    open spec fn from_spec(inner: PSP22Error) -> Self {
        MostError::PSP22(inner)
    }
}

impl From<Ownable2StepError> for MostError {
    fn from(inner: Ownable2StepError) -> (e: Self) {
        MostError::Ownable(inner)
    }
}

impl FromSpecImpl<Ownable2StepError> for MostError {
    open spec fn obeys_from_spec() -> bool {
        true
    }

    open spec fn from_spec(inner: Ownable2StepError) -> Self {
        MostError::Ownable(inner)
    }
}

} // verus!

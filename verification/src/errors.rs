//! The typed rejections every operation can return. A failed operation
//! leaves all state unchanged; the error kind tells a caller whether the
//! input was invalid, the caller lacked standing, the state moved on, a
//! counter is exhausted, or the timing was wrong.

use vstd::prelude::*;

verus! {

#[derive(Clone, Copy, PartialEq, Eq, Structural, Debug)]
pub enum MultisigError {
    InvalidThreshold,
    NoOwners,
    TooManyOwners,
    DuplicateOwners,
    InvalidOwner,
    OwnerNotFound,
    AlreadyApproved,
    NotEnoughApprovals,
    AlreadyExecuted,
    EmptyTransaction,
    TransactionTooLarge,
    InvalidTransactionId,
    InvalidTransaction,
    TransactionCountOverflow,
    ApprovalCountOverflow,
    ApprovalArrayMismatch,
    ClockUnavailable,
    MultisigPaused,
    NotPaused,
    TransactionNotExecuted,
    InvalidMultisigState,
    InvalidTransactionState,
    TransactionExpired,
    InvalidNonce,
    NonceOverflow,
    NotEnoughAdminApprovals,
    SameSlotExecution,
    RateLimitExceeded,
    InvalidTransactionType,
    InvalidAdminThreshold,
    TransactionTooComplex,
}

impl MultisigError {
    /// A short human-readable description, for hosts that surface errors.
    pub fn message(&self) -> &'static str {
        match self {
            MultisigError::InvalidThreshold => "Invalid threshold: must be > 0 and <= number of owners",
            MultisigError::NoOwners => "No owners provided",
            MultisigError::TooManyOwners => "Too many owners: maximum 10 allowed",
            MultisigError::DuplicateOwners => "Duplicate owners not allowed",
            MultisigError::InvalidOwner => "Invalid owner: cannot be the null identity",
            MultisigError::OwnerNotFound => "Owner not found",
            MultisigError::AlreadyApproved => "Already approved",
            MultisigError::NotEnoughApprovals => "Not enough approvals",
            MultisigError::AlreadyExecuted => "Transaction already executed",
            MultisigError::EmptyTransaction => "Empty transaction data",
            MultisigError::TransactionTooLarge => "Transaction data too large",
            MultisigError::InvalidTransactionId => "Invalid transaction ID",
            MultisigError::InvalidTransaction => "Invalid transaction",
            MultisigError::TransactionCountOverflow => "Transaction count overflow",
            MultisigError::ApprovalCountOverflow => "Approval count overflow",
            MultisigError::ApprovalArrayMismatch => "Approval array length mismatch",
            MultisigError::ClockUnavailable => "Clock unavailable",
            MultisigError::MultisigPaused => "Multisig is paused",
            MultisigError::NotPaused => "Multisig is not paused",
            MultisigError::TransactionNotExecuted => "Transaction not executed",
            MultisigError::InvalidMultisigState => "Invalid multisig state",
            MultisigError::InvalidTransactionState => "Invalid transaction state",
            MultisigError::TransactionExpired => "Transaction expired",
            MultisigError::InvalidNonce => "Invalid nonce",
            MultisigError::NonceOverflow => "Nonce overflow",
            MultisigError::NotEnoughAdminApprovals => "Not enough admin approvals",
            MultisigError::SameSlotExecution => "Same slot execution not allowed",
            MultisigError::RateLimitExceeded => "Rate limit exceeded",
            MultisigError::InvalidTransactionType => "Invalid transaction type",
            MultisigError::InvalidAdminThreshold => "Invalid admin threshold",
            MultisigError::TransactionTooComplex => "Transaction too complex",
        }
    }
}

} // verus!

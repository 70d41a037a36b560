//! One event per state transition, returned to the caller for emission to
//! external observers and indexers. Each carries the relevant identifiers,
//! before/after values and a timestamp. Record addresses are the host's to
//! derive from `(multisig, transaction_id)`, so events name records by id.

use vstd::prelude::*;

use crate::state::{Pubkey, TransactionType};

verus! {

#[derive(Clone, Debug)]
pub struct MultisigCreated {
    pub multisig: Pubkey,
    pub creator: Pubkey,
    pub owners: Vec<Pubkey>,
    pub threshold: u8,
    pub admin_threshold: u8,
    pub created_at: i64,
}

#[derive(Clone, Copy, PartialEq, Eq, Structural, Debug)]
pub struct MultisigPaused {
    pub multisig: Pubkey,
    pub paused_by: Pubkey,
    pub paused_at: i64,
}

#[derive(Clone, Copy, PartialEq, Eq, Structural, Debug)]
pub struct MultisigUnpaused {
    pub multisig: Pubkey,
    pub transaction_id: u64,
    pub unpaused_at: i64,
}

#[derive(Clone, Copy, PartialEq, Eq, Structural, Debug)]
pub struct TransactionProposed {
    pub multisig: Pubkey,
    pub proposer: Pubkey,
    pub transaction_id: u64,
    pub transaction_type: TransactionType,
    pub expires_at: i64,
    pub created_at: i64,
}

#[derive(Clone, Copy, PartialEq, Eq, Structural, Debug)]
pub struct TransactionApproved {
    pub multisig: Pubkey,
    pub approver: Pubkey,
    pub transaction_id: u64,
    pub approval_count: u8,
    pub required_approvals: u8,
}

#[derive(Clone, Copy, PartialEq, Eq, Structural, Debug)]
pub struct TransactionExecuted {
    pub multisig: Pubkey,
    pub executor: Pubkey,
    pub transaction_id: u64,
    pub transaction_type: TransactionType,
    pub approval_count: u8,
    pub executed_at: i64,
}

#[derive(Clone, Copy, PartialEq, Eq, Structural, Debug)]
pub struct ThresholdChanged {
    pub multisig: Pubkey,
    pub transaction_id: u64,
    pub old_threshold: u8,
    pub new_threshold: u8,
    pub changed_at: i64,
}

#[derive(Clone, Copy, PartialEq, Eq, Structural, Debug)]
pub struct OwnerAdded {
    pub multisig: Pubkey,
    pub transaction_id: u64,
    pub new_owner: Pubkey,
    pub total_owners: u8,
    pub added_at: i64,
}

#[derive(Clone, Copy, PartialEq, Eq, Structural, Debug)]
pub struct OwnerRemoved {
    pub multisig: Pubkey,
    pub transaction_id: u64,
    pub removed_owner: Pubkey,
    pub total_owners: u8,
    pub removed_at: i64,
}

} // verus!

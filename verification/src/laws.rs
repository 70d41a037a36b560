//! The cross-function guarantees of the engine, each proved once and for
//! all over the same spec functions the operations' contracts use.

use vstd::prelude::*;

use crate::errors::MultisigError;
use crate::state::{
    count_true, lemma_count_true_le_len, lemma_count_true_update, owner_index, Multisig, Pubkey,
    Transaction,
};
use crate::transaction::{
    spec_approve_error, spec_approve_ok, spec_execute_error, spec_execute_ok,
    spec_required_approvals,
};

verus! {

/// A ballot sized to the owner set can never count more approvals than
/// there are owners.
pub proof fn lemma_approval_count_bounded(tx: Transaction, m: Multisig)
    requires
        tx.approvals@.len() == m.owners@.len(),
    ensures
        tx.spec_approval_count() <= m.owners@.len(),
{
    lemma_count_true_le_len(tx.approvals@);
}

/// The approval count never decreases: the only ballot mutation any
/// operation performs is setting one entry to true, and that raises the
/// count by exactly one when the entry was false and never lowers it.
pub proof fn lemma_approval_monotonic(pre: Seq<bool>, post: Seq<bool>, i: int)
    requires
        0 <= i < pre.len(),
        post == pre.update(i, true),
    ensures
        count_true(pre) <= count_true(post) <= count_true(pre) + 1,
{
    lemma_count_true_update(pre, i);
}

/// Rejection of a duplicate approval is idempotent: once an owner's ballot
/// entry is set, any later approval attempt by that owner on any record
/// that still carries that entry — no matter which other owners have
/// approved in between — fails with exactly `AlreadyApproved`.
pub proof fn lemma_second_approve_rejected(
    m: Multisig,
    tx: Transaction,
    tx2: Transaction,
    multisig_address: Pubkey,
    approver: Pubkey,
    transaction_id: u64,
    now: i64,
)
    requires
        spec_approve_ok(m, tx, multisig_address, approver, transaction_id, now),
        tx2.multisig == tx.multisig,
        tx2.transaction_id == tx.transaction_id,
        tx2.executed == tx.executed,
        tx2.expires_at == tx.expires_at,
        tx2.instruction_data@.len() == tx.instruction_data@.len(),
        tx2.approvals@.len() == tx.approvals@.len(),
        tx2.approvals@[owner_index(m.owners@, approver)],
    ensures
        spec_approve_error(m, tx2, multisig_address, approver, transaction_id, now) == Some(
            MultisigError::AlreadyApproved,
        ),
{
    assert(tx2.spec_validate(m, now) is None);
}

/// The threshold boundary: with every other execution check passing,
/// execution succeeds exactly when the approval count has reached the
/// required threshold — so it succeeds at the threshold itself and fails
/// with `NotEnoughApprovals` one short of it.
pub proof fn lemma_execute_threshold_boundary(
    m: Multisig,
    tx: Transaction,
    multisig_address: Pubkey,
    executor: Pubkey,
    transaction_id: u64,
    now: i64,
    slot: u64,
)
    requires
        tx.multisig == multisig_address,
        !m.paused,
        !tx.executed,
        m.spec_validate() is None,
        tx.spec_validate(m, now) is None,
        tx.transaction_id == transaction_id,
        slot > tx.created_slot + 1,
        m.spec_is_member(executor),
    ensures
        spec_execute_ok(m, tx, multisig_address, executor, transaction_id, now, slot) <==> count_true(
            tx.approvals@,
        ) >= spec_required_approvals(m, tx.transaction_type),
        count_true(tx.approvals@) < spec_required_approvals(m, tx.transaction_type)
            ==> spec_execute_error(m, tx, multisig_address, executor, transaction_id, now, slot)
            == Some(MultisigError::NotEnoughApprovals),
{
}

/// The expiry boundary for approvals: expiry never blocks at or before
/// `expires_at`, and blocks with exactly `TransactionExpired` from
/// `expires_at + 1` on (once the checks ahead of it pass).
pub proof fn lemma_approve_expiry_boundary(
    m: Multisig,
    tx: Transaction,
    multisig_address: Pubkey,
    approver: Pubkey,
    transaction_id: u64,
    now: i64,
)
    requires
        tx.multisig == multisig_address,
        !m.paused,
        m.spec_validate() is None,
    ensures
        now <= tx.expires_at ==> spec_approve_error(
            m,
            tx,
            multisig_address,
            approver,
            transaction_id,
            now,
        ) != Some(MultisigError::TransactionExpired),
        now > tx.expires_at ==> spec_approve_error(
            m,
            tx,
            multisig_address,
            approver,
            transaction_id,
            now,
        ) == Some(MultisigError::TransactionExpired),
{
}

/// The expiry boundary for execution, mirroring the approval one.
pub proof fn lemma_execute_expiry_boundary(
    m: Multisig,
    tx: Transaction,
    multisig_address: Pubkey,
    executor: Pubkey,
    transaction_id: u64,
    now: i64,
    slot: u64,
)
    requires
        tx.multisig == multisig_address,
        !m.paused,
        !tx.executed,
        m.spec_validate() is None,
    ensures
        now <= tx.expires_at ==> spec_execute_error(
            m,
            tx,
            multisig_address,
            executor,
            transaction_id,
            now,
            slot,
        ) != Some(MultisigError::TransactionExpired),
        now > tx.expires_at ==> spec_execute_error(
            m,
            tx,
            multisig_address,
            executor,
            transaction_id,
            now,
            slot,
        ) == Some(MultisigError::TransactionExpired),
{
}

} // verus!

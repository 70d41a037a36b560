//! The proposal / approval / execution lifecycle. A record moves from
//! proposed, through any number of distinct-owner approvals, to executed,
//! unless it expires first. Every operation is an atomic step: it either
//! commits all its effects or returns a typed error with nothing changed.

use vstd::prelude::*;

use crate::errors::MultisigError;
use crate::events::{TransactionApproved, TransactionExecuted, TransactionProposed};
use crate::helpers::{calculate_instruction_complexity, spec_complexity};
use crate::state::{
    count_true, lemma_count_true_all_false, lemma_count_true_le_len, lemma_count_true_update,
    owner_index, Multisig, Pubkey, Transaction, TransactionType, MAX_DATA_LEN,
};

verus! {

/// The highest complexity score a payload may have.
pub const MAX_COMPLEXITY: u32 = 100;

/// Proposals are rate limited to one per multisig per this many slots.
pub const RATE_LIMIT_SLOTS: u64 = 10;

/// A record expires this many hours after proposal unless the proposer
/// chose otherwise.
pub const DEFAULT_EXPIRY_HOURS: u8 = 72;

/// The expiry horizon a proposal asks for: the explicit hour count, or the
/// default when unspecified.
pub open spec fn effective_expiry_hours(expires_in_hours: Option<u8>) -> u8 {
    match expires_in_hours {
        Some(h) => h,
        None => DEFAULT_EXPIRY_HOURS,
    }
}

/// The first failed proposal check, in the order `propose_transaction`
/// performs them; `None` exactly when the proposal is accepted.
pub open spec fn spec_propose_error(
    m: Multisig,
    proposer: Pubkey,
    data: Seq<u8>,
    nonce: u64,
    slot: u64,
) -> Option<MultisigError> {
    if !(slot > m.last_proposal_slot + RATE_LIMIT_SLOTS) {
        Some(MultisigError::RateLimitExceeded)
    } else if nonce != m.nonce {
        Some(MultisigError::InvalidNonce)
    } else if m.nonce == u64::MAX {
        Some(MultisigError::NonceOverflow)
    } else if m.paused {
        Some(MultisigError::MultisigPaused)
    } else if m.spec_validate() is Some {
        m.spec_validate()
    } else if data.len() == 0 {
        Some(MultisigError::EmptyTransaction)
    } else if data.len() > MAX_DATA_LEN {
        Some(MultisigError::TransactionTooLarge)
    } else if spec_complexity(data) > MAX_COMPLEXITY {
        Some(MultisigError::TransactionTooComplex)
    } else if !m.spec_is_member(proposer) {
        Some(MultisigError::OwnerNotFound)
    } else if m.transaction_count == u64::MAX {
        Some(MultisigError::TransactionCountOverflow)
    } else {
        None
    }
}

pub open spec fn spec_propose_ok(
    m: Multisig,
    proposer: Pubkey,
    data: Seq<u8>,
    nonce: u64,
    slot: u64,
) -> bool {
    spec_propose_error(m, proposer, data, nonce, slot) is None
}

/// A fresh all-false ballot with one entry per owner.
fn make_ballot(n: usize) -> (r: Vec<bool>)
    ensures
        r@.len() == n,
        forall|i: int| 0 <= i < n ==> !r@[i],
{
    let mut r: Vec<bool> = Vec::new();
    let mut i: usize = 0;
    while i < n
        invariant
            0 <= i <= n,
            r@.len() == i,
            forall|j: int| 0 <= j < i ==> !r@[j],
        decreases n - i,
    {
        r.push(false);
        i += 1;
    }
    r
}

/// Accepts a new proposal from a current owner, allocating its record and
/// advancing the multisig's counters, all atomically.
///
/// The request must carry the multisig's current nonce (replay
/// protection), arrive more than `RATE_LIMIT_SLOTS` slots after the last
/// accepted proposal, carry 1 to `MAX_DATA_LEN` bytes of payload within
/// the complexity cap, and come while the multisig is unpaused and well
/// formed. On success the record's id is the pre-increment
/// `transaction_count`, its ballot is all false, and it expires
/// `effective_expiry_hours` after `now`; the multisig's `nonce` and
/// `transaction_count` each advance by one and the rate-limit slot is
/// stamped. On failure the multisig is untouched.
///
/// The bound on `now` keeps the expiry timestamp within `i64`.
pub fn propose_transaction(
    m: &mut Multisig,
    multisig_address: Pubkey,
    proposer: Pubkey,
    instruction_data: Vec<u8>,
    nonce: u64,
    transaction_type: TransactionType,
    expires_in_hours: Option<u8>,
    now: i64,
    slot: u64,
) -> (r: Result<(Transaction, TransactionProposed), MultisigError>)
    requires
        now <= i64::MAX - 918000,
    ensures
        r is Ok <==> spec_propose_ok(*old(m), proposer, instruction_data@, nonce, slot),
        r matches Err(e) ==> spec_propose_error(*old(m), proposer, instruction_data@, nonce, slot)
            == Some(e) && *final(m) == *old(m),
        r matches Ok((tx, ev)) ==> {
            &&& *final(m) == (Multisig {
                nonce: (old(m).nonce + 1) as u64,
                transaction_count: (old(m).transaction_count + 1) as u64,
                last_proposal_slot: slot,
                ..*old(m)
            })
            &&& tx.transaction_id == old(m).transaction_count
            &&& tx.created_at == now
            &&& tx.expires_at == now + effective_expiry_hours(expires_in_hours) * 3600
            &&& !tx.executed
            &&& tx.created_slot == slot
            &&& tx.multisig == multisig_address
            &&& tx.proposer == proposer
            &&& tx.transaction_type == transaction_type
            &&& tx.approvals@.len() == old(m).owners@.len()
            &&& forall|i: int| 0 <= i < tx.approvals@.len() ==> !tx.approvals@[i]
            &&& tx.spec_approval_count() == 0
            &&& tx.instruction_data@ == instruction_data@
            &&& ev == (TransactionProposed {
                multisig: multisig_address,
                proposer,
                transaction_id: old(m).transaction_count,
                transaction_type,
                expires_at: tx.expires_at,
                created_at: now,
            })
        },
{
    let rate_ok = match m.last_proposal_slot.checked_add(RATE_LIMIT_SLOTS) {
        Some(limit) => slot > limit,
        None => false,
    };
    if !rate_ok {
        return Err(MultisigError::RateLimitExceeded);
    }
    if nonce != m.nonce {
        return Err(MultisigError::InvalidNonce);
    }
    if m.nonce == u64::MAX {
        return Err(MultisigError::NonceOverflow);
    }
    if m.paused {
        return Err(MultisigError::MultisigPaused);
    }
    if let Err(e) = m.validate_state() {
        return Err(e);
    }
    if instruction_data.len() == 0 {
        return Err(MultisigError::EmptyTransaction);
    }
    if instruction_data.len() > MAX_DATA_LEN {
        return Err(MultisigError::TransactionTooLarge);
    }
    let complexity_score = calculate_instruction_complexity(&instruction_data);
    if complexity_score > MAX_COMPLEXITY {
        return Err(MultisigError::TransactionTooComplex);
    }
    if !m.is_member(proposer) {
        return Err(MultisigError::OwnerNotFound);
    }
    let transaction_count = match m.transaction_count.checked_add(1) {
        Some(c) => c,
        None => {
            return Err(MultisigError::TransactionCountOverflow);
        },
    };
    let transaction_id = m.transaction_count;
    let expiration_hours = match expires_in_hours {
        Some(h) => h,
        None => DEFAULT_EXPIRY_HOURS,
    };
    let expires_at = now + (expiration_hours as i64) * 3600;
    let ballot = make_ballot(m.owners.len());
    proof {
        lemma_count_true_all_false(ballot@);
    }
    let tx = Transaction {
        transaction_id,
        created_at: now,
        expires_at,
        executed: false,
        created_slot: slot,
        multisig: multisig_address,
        proposer,
        transaction_type,
        approvals: ballot,
        instruction_data,
    };
    m.nonce = m.nonce + 1;
    m.transaction_count = transaction_count;
    m.last_proposal_slot = slot;
    let event = TransactionProposed {
        multisig: multisig_address,
        proposer,
        transaction_id,
        transaction_type,
        expires_at,
        created_at: now,
    };
    Ok((tx, event))
}

/// The first failed approval check, in the order `approve_transaction`
/// performs them; `None` exactly when the approval is accepted. The final
/// check looks up the approver's ballot position, which is unique because
/// a validated multisig has distinct owners.
pub open spec fn spec_approve_error(
    m: Multisig,
    tx: Transaction,
    multisig_address: Pubkey,
    approver: Pubkey,
    transaction_id: u64,
    now: i64,
) -> Option<MultisigError> {
    if tx.multisig != multisig_address {
        Some(MultisigError::InvalidTransaction)
    } else if m.paused {
        Some(MultisigError::MultisigPaused)
    } else if m.spec_validate() is Some {
        m.spec_validate()
    } else if tx.spec_validate(m, now) is Some {
        tx.spec_validate(m, now)
    } else if tx.executed {
        Some(MultisigError::AlreadyExecuted)
    } else if tx.transaction_id != transaction_id {
        Some(MultisigError::InvalidTransactionId)
    } else if !m.spec_is_member(approver) {
        Some(MultisigError::OwnerNotFound)
    } else if tx.approvals@[owner_index(m.owners@, approver)] {
        Some(MultisigError::AlreadyApproved)
    } else {
        None
    }
}

pub open spec fn spec_approve_ok(
    m: Multisig,
    tx: Transaction,
    multisig_address: Pubkey,
    approver: Pubkey,
    transaction_id: u64,
    now: i64,
) -> bool {
    spec_approve_error(m, tx, multisig_address, approver, transaction_id, now) is None
}

/// Registers one owner's approval: flips that owner's ballot entry from
/// false to true, raising the approval count by exactly one. A repeated
/// approval by the same owner is refused with `AlreadyApproved`; the
/// record must be unexecuted, unexpired, correctly referenced and sized to
/// the current owner set, and the multisig unpaused and well formed. On
/// failure the record is untouched.
pub fn approve_transaction(
    tx: &mut Transaction,
    m: &Multisig,
    multisig_address: Pubkey,
    approver: Pubkey,
    transaction_id: u64,
    now: i64,
) -> (r: Result<TransactionApproved, MultisigError>)
    ensures
        r is Ok <==> spec_approve_ok(*m, *old(tx), multisig_address, approver, transaction_id, now),
        r matches Err(e) ==> spec_approve_error(
            *m,
            *old(tx),
            multisig_address,
            approver,
            transaction_id,
            now,
        ) == Some(e) && *final(tx) == *old(tx),
        r matches Ok(ev) ==> {
            let idx = owner_index(m.owners@, approver);
            &&& 0 <= idx < old(tx).approvals@.len()
            &&& m.owners@[idx] == approver
            &&& !old(tx).approvals@[idx]
            &&& *final(tx) == (Transaction { approvals: final(tx).approvals, ..*old(tx) })
            &&& final(tx).approvals@ == old(tx).approvals@.update(idx, true)
            &&& final(tx).spec_approval_count() == old(tx).spec_approval_count() + 1
            &&& final(tx).spec_approval_count() <= m.owners@.len()
            &&& ev == (TransactionApproved {
                multisig: multisig_address,
                approver,
                transaction_id,
                approval_count: (old(tx).spec_approval_count() + 1) as u8,
                required_approvals: m.threshold,
            })
        },
{
    if tx.multisig != multisig_address {
        return Err(MultisigError::InvalidTransaction);
    }
    if m.paused {
        return Err(MultisigError::MultisigPaused);
    }
    if let Err(e) = m.validate_state() {
        return Err(e);
    }
    if let Err(e) = tx.validate_state(m, now) {
        return Err(e);
    }
    if tx.executed {
        return Err(MultisigError::AlreadyExecuted);
    }
    if tx.transaction_id != transaction_id {
        return Err(MultisigError::InvalidTransactionId);
    }
    let idx = match m.find_owner(approver) {
        Some(i) => i,
        None => {
            return Err(MultisigError::OwnerNotFound);
        },
    };
    proof {
        // The owners are distinct, so the found position is the unique one
        // the specification names.
        let j = owner_index(m.owners@, approver);
        assert(0 <= j < m.owners@.len() && m.owners@[j] == approver);
        assert(j == idx as int);
    }
    if tx.approvals[idx] {
        return Err(MultisigError::AlreadyApproved);
    }
    let ghost pre_ballot = tx.approvals@;
    tx.approvals[idx] = true;
    proof {
        lemma_count_true_update(pre_ballot, idx as int);
        lemma_count_true_le_len(tx.approvals@);
    }
    let count = tx.approval_count();
    Ok(
        TransactionApproved {
            multisig: multisig_address,
            approver,
            transaction_id,
            approval_count: count as u8,
            required_approvals: m.threshold,
        },
    )
}

/// How many approvals executing a record takes: the admin threshold for an
/// `AdminAction`, the ordinary threshold for everything else.
pub open spec fn spec_required_approvals(m: Multisig, t: TransactionType) -> u8 {
    if t == TransactionType::AdminAction {
        m.admin_threshold
    } else {
        m.threshold
    }
}

/// The first failed execution check, in the order `execute_transaction`
/// performs them; `None` exactly when execution is accepted.
pub open spec fn spec_execute_error(
    m: Multisig,
    tx: Transaction,
    multisig_address: Pubkey,
    executor: Pubkey,
    transaction_id: u64,
    now: i64,
    slot: u64,
) -> Option<MultisigError> {
    if tx.multisig != multisig_address {
        Some(MultisigError::InvalidTransaction)
    } else if m.paused {
        Some(MultisigError::MultisigPaused)
    } else if tx.executed {
        Some(MultisigError::AlreadyExecuted)
    } else if m.spec_validate() is Some {
        m.spec_validate()
    } else if tx.spec_validate(m, now) is Some {
        tx.spec_validate(m, now)
    } else if tx.transaction_id != transaction_id {
        Some(MultisigError::InvalidTransactionId)
    } else if !(slot > tx.created_slot + 1) {
        Some(MultisigError::SameSlotExecution)
    } else if !m.spec_is_member(executor) {
        Some(MultisigError::OwnerNotFound)
    } else if count_true(tx.approvals@) < spec_required_approvals(m, tx.transaction_type) {
        Some(MultisigError::NotEnoughApprovals)
    } else {
        None
    }
}

pub open spec fn spec_execute_ok(
    m: Multisig,
    tx: Transaction,
    multisig_address: Pubkey,
    executor: Pubkey,
    transaction_id: u64,
    now: i64,
    slot: u64,
) -> bool {
    spec_execute_error(m, tx, multisig_address, executor, transaction_id, now, slot) is None
}

/// Marks a record executed once its ballot has reached the required
/// threshold: the admin threshold for an `AdminAction`, the ordinary one
/// otherwise. Any current owner may trigger it, but never in the slot of
/// the proposal or the one after (closing a flash-approval race), never
/// twice, and never after expiry. The payload's outward effect is the
/// host's to perform in the same atomic step. On failure the record is
/// untouched.
pub fn execute_transaction(
    tx: &mut Transaction,
    m: &Multisig,
    multisig_address: Pubkey,
    executor: Pubkey,
    transaction_id: u64,
    now: i64,
    slot: u64,
) -> (r: Result<TransactionExecuted, MultisigError>)
    ensures
        r is Ok <==> spec_execute_ok(
            *m,
            *old(tx),
            multisig_address,
            executor,
            transaction_id,
            now,
            slot,
        ),
        r matches Err(e) ==> spec_execute_error(
            *m,
            *old(tx),
            multisig_address,
            executor,
            transaction_id,
            now,
            slot,
        ) == Some(e) && *final(tx) == *old(tx),
        r matches Ok(ev) ==> {
            &&& *final(tx) == (Transaction { executed: true, ..*old(tx) })
            &&& ev == (TransactionExecuted {
                multisig: multisig_address,
                executor,
                transaction_id,
                transaction_type: old(tx).transaction_type,
                approval_count: old(tx).spec_approval_count() as u8,
                executed_at: now,
            })
        },
{
    if tx.multisig != multisig_address {
        return Err(MultisigError::InvalidTransaction);
    }
    if m.paused {
        return Err(MultisigError::MultisigPaused);
    }
    if tx.executed {
        return Err(MultisigError::AlreadyExecuted);
    }
    if let Err(e) = m.validate_state() {
        return Err(e);
    }
    if let Err(e) = tx.validate_state(m, now) {
        return Err(e);
    }
    if tx.transaction_id != transaction_id {
        return Err(MultisigError::InvalidTransactionId);
    }
    let slot_ok = match tx.created_slot.checked_add(1) {
        Some(limit) => slot > limit,
        None => false,
    };
    if !slot_ok {
        return Err(MultisigError::SameSlotExecution);
    }
    if !m.is_member(executor) {
        return Err(MultisigError::OwnerNotFound);
    }
    let required_approvals = match tx.transaction_type {
        TransactionType::AdminAction => m.admin_threshold,
        _ => m.threshold,
    };
    let approval_count = tx.approval_count();
    proof {
        lemma_count_true_le_len(tx.approvals@);
    }
    if approval_count < required_approvals as usize {
        return Err(MultisigError::NotEnoughApprovals);
    }
    tx.executed = true;
    Ok(
        TransactionExecuted {
            multisig: multisig_address,
            executor,
            transaction_id,
            transaction_type: tx.transaction_type,
            approval_count: approval_count as u8,
            executed_at: now,
        },
    )
}

} // verus!

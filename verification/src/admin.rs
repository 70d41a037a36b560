//! The self-amendment path: operations that ride an ordinary transaction
//! record's ballot but mutate the multisig itself — changing the ordinary
//! threshold, adding or removing an owner, and unpausing. The first three
//! are gated on the admin threshold, unpausing on the ordinary one.
//!
//! An owner-set change leaves already-proposed records with a ballot sized
//! to the old owner count; their `approve`/`execute` calls are thereafter
//! refused with `ApprovalArrayMismatch`. A membership change thus
//! invalidates pending records — a fail-safe, preserved deliberately.

use vstd::prelude::*;

use crate::errors::MultisigError;
use crate::events::{MultisigUnpaused, OwnerAdded, OwnerRemoved, ThresholdChanged};
use crate::state::{owner_index, Multisig, Pubkey, Transaction, MAX_OWNERS};

verus! {

/// The checks shared by the admin-gated amendments, in order; `None` when
/// the record is a live, fully admin-approved ballot of this multisig.
pub open spec fn spec_admin_gate_error(
    m: Multisig,
    tx: Transaction,
    multisig_address: Pubkey,
    transaction_id: u64,
    now: i64,
) -> Option<MultisigError> {
    if tx.multisig != multisig_address {
        Some(MultisigError::InvalidTransaction)
    } else if tx.transaction_id != transaction_id {
        Some(MultisigError::InvalidTransactionId)
    } else if m.paused {
        Some(MultisigError::MultisigPaused)
    } else if m.spec_validate() is Some {
        m.spec_validate()
    } else if tx.spec_validate(m, now) is Some {
        tx.spec_validate(m, now)
    } else if tx.executed {
        Some(MultisigError::AlreadyExecuted)
    } else if !tx.spec_is_ready(m.admin_threshold) {
        Some(MultisigError::NotEnoughAdminApprovals)
    } else {
        None
    }
}

/// Runs the shared admin gate; `Ok` exactly when `spec_admin_gate_error`
/// is `None`. Mutates nothing.
fn admin_gate(
    m: &Multisig,
    tx: &Transaction,
    multisig_address: Pubkey,
    transaction_id: u64,
    now: i64,
) -> (r: Result<(), MultisigError>)
    ensures
        r is Ok <==> spec_admin_gate_error(*m, *tx, multisig_address, transaction_id, now) is None,
        r matches Err(e) ==> spec_admin_gate_error(*m, *tx, multisig_address, transaction_id, now)
            == Some(e),
{
    if tx.multisig != multisig_address {
        return Err(MultisigError::InvalidTransaction);
    }
    if tx.transaction_id != transaction_id {
        return Err(MultisigError::InvalidTransactionId);
    }
    if m.paused {
        return Err(MultisigError::MultisigPaused);
    }
    if let Err(e) = m.validate_state() {
        return Err(e);
    }
    if let Err(e) = tx.validate_state(m, now) {
        return Err(e);
    }
    if tx.executed {
        return Err(MultisigError::AlreadyExecuted);
    }
    if !tx.is_admin_ready_to_execute(m.admin_threshold) {
        return Err(MultisigError::NotEnoughAdminApprovals);
    }
    Ok(())
}

/// The first failed check of `change_threshold`; `None` exactly when the
/// change is accepted.
pub open spec fn spec_change_threshold_error(
    m: Multisig,
    tx: Transaction,
    multisig_address: Pubkey,
    transaction_id: u64,
    new_threshold: u8,
    now: i64,
) -> Option<MultisigError> {
    let gate = spec_admin_gate_error(m, tx, multisig_address, transaction_id, now);
    if gate is Some {
        gate
    } else if !(1 <= new_threshold && new_threshold <= m.owners@.len()) {
        Some(MultisigError::InvalidThreshold)
    } else {
        None
    }
}

/// Sets the ordinary threshold to `new_threshold` (which must stay within
/// `1..=len(owners)`) once the record has reached the admin threshold, and
/// marks the record executed. On failure both are untouched.
pub fn change_threshold(
    m: &mut Multisig,
    tx: &mut Transaction,
    multisig_address: Pubkey,
    transaction_id: u64,
    new_threshold: u8,
    now: i64,
) -> (r: Result<ThresholdChanged, MultisigError>)
    ensures
        r is Ok <==> spec_change_threshold_error(
            *old(m),
            *old(tx),
            multisig_address,
            transaction_id,
            new_threshold,
            now,
        ) is None,
        r matches Err(e) ==> spec_change_threshold_error(
            *old(m),
            *old(tx),
            multisig_address,
            transaction_id,
            new_threshold,
            now,
        ) == Some(e) && *final(m) == *old(m) && *final(tx) == *old(tx),
        r matches Ok(ev) ==> {
            &&& *final(m) == (Multisig { threshold: new_threshold, ..*old(m) })
            &&& *final(tx) == (Transaction { executed: true, ..*old(tx) })
            &&& ev == (ThresholdChanged {
                multisig: multisig_address,
                transaction_id,
                old_threshold: old(m).threshold,
                new_threshold,
                changed_at: now,
            })
        },
{
    if let Err(e) = admin_gate(m, tx, multisig_address, transaction_id, now) {
        return Err(e);
    }
    if new_threshold == 0 {
        return Err(MultisigError::InvalidThreshold);
    }
    if new_threshold as usize > m.owners.len() {
        return Err(MultisigError::InvalidThreshold);
    }
    let old_threshold = m.threshold;
    m.threshold = new_threshold;
    tx.executed = true;
    Ok(
        ThresholdChanged {
            multisig: multisig_address,
            transaction_id,
            old_threshold,
            new_threshold,
            changed_at: now,
        },
    )
}

/// The first failed check of `add_owner`; `None` exactly when the addition
/// is accepted.
pub open spec fn spec_add_owner_error(
    m: Multisig,
    tx: Transaction,
    multisig_address: Pubkey,
    transaction_id: u64,
    new_owner: Pubkey,
    now: i64,
) -> Option<MultisigError> {
    let gate = spec_admin_gate_error(m, tx, multisig_address, transaction_id, now);
    if gate is Some {
        gate
    } else if new_owner.spec_is_null() {
        Some(MultisigError::InvalidOwner)
    } else if m.owners@.len() >= MAX_OWNERS {
        Some(MultisigError::TooManyOwners)
    } else if m.spec_is_member(new_owner) {
        Some(MultisigError::DuplicateOwners)
    } else {
        None
    }
}

/// Appends a new non-null, not-yet-present owner once the record has
/// reached the admin threshold, and marks the record executed. The grown
/// state is again well formed. On failure both are untouched.
pub fn add_owner(
    m: &mut Multisig,
    tx: &mut Transaction,
    multisig_address: Pubkey,
    transaction_id: u64,
    new_owner: Pubkey,
    now: i64,
) -> (r: Result<OwnerAdded, MultisigError>)
    ensures
        r is Ok <==> spec_add_owner_error(
            *old(m),
            *old(tx),
            multisig_address,
            transaction_id,
            new_owner,
            now,
        ) is None,
        r matches Err(e) ==> spec_add_owner_error(
            *old(m),
            *old(tx),
            multisig_address,
            transaction_id,
            new_owner,
            now,
        ) == Some(e) && *final(m) == *old(m) && *final(tx) == *old(tx),
        r matches Ok(ev) ==> {
            &&& *final(m) == (Multisig { owners: final(m).owners, ..*old(m) })
            &&& final(m).owners@ == old(m).owners@.push(new_owner)
            &&& final(m).wf()
            &&& *final(tx) == (Transaction { executed: true, ..*old(tx) })
            &&& ev == (OwnerAdded {
                multisig: multisig_address,
                transaction_id,
                new_owner,
                total_owners: (old(m).owners@.len() + 1) as u8,
                added_at: now,
            })
        },
{
    if let Err(e) = admin_gate(m, tx, multisig_address, transaction_id, now) {
        return Err(e);
    }
    if new_owner.is_null() {
        return Err(MultisigError::InvalidOwner);
    }
    if m.owners.len() >= MAX_OWNERS {
        return Err(MultisigError::TooManyOwners);
    }
    if m.is_member(new_owner) {
        return Err(MultisigError::DuplicateOwners);
    }
    let total_owners = (m.owners.len() + 1) as u8;
    m.owners.push(new_owner);
    tx.executed = true;
    Ok(
        OwnerAdded {
            multisig: multisig_address,
            transaction_id,
            new_owner,
            total_owners,
            added_at: now,
        },
    )
}

/// The first failed check of `remove_owner`; `None` exactly when the
/// removal is accepted. Both thresholds must still be coverable by the
/// shrunken owner set.
pub open spec fn spec_remove_owner_error(
    m: Multisig,
    tx: Transaction,
    multisig_address: Pubkey,
    transaction_id: u64,
    owner_to_remove: Pubkey,
    now: i64,
) -> Option<MultisigError> {
    let gate = spec_admin_gate_error(m, tx, multisig_address, transaction_id, now);
    if gate is Some {
        gate
    } else if !m.spec_is_member(owner_to_remove) {
        Some(MultisigError::OwnerNotFound)
    } else if m.threshold > m.owners@.len() - 1 {
        Some(MultisigError::InvalidThreshold)
    } else if m.admin_threshold > m.owners@.len() - 1 {
        Some(MultisigError::InvalidAdminThreshold)
    } else if m.owners@.len() - 1 == 0 {
        Some(MultisigError::NoOwners)
    } else {
        None
    }
}

/// Removes a present owner once the record has reached the admin
/// threshold, provided both thresholds still fit the shrunken set, and
/// marks the record executed. The shrunken state is again well formed. On
/// failure both are untouched.
pub fn remove_owner(
    m: &mut Multisig,
    tx: &mut Transaction,
    multisig_address: Pubkey,
    transaction_id: u64,
    owner_to_remove: Pubkey,
    now: i64,
) -> (r: Result<OwnerRemoved, MultisigError>)
    ensures
        r is Ok <==> spec_remove_owner_error(
            *old(m),
            *old(tx),
            multisig_address,
            transaction_id,
            owner_to_remove,
            now,
        ) is None,
        r matches Err(e) ==> spec_remove_owner_error(
            *old(m),
            *old(tx),
            multisig_address,
            transaction_id,
            owner_to_remove,
            now,
        ) == Some(e) && *final(m) == *old(m) && *final(tx) == *old(tx),
        r matches Ok(ev) ==> {
            let idx = owner_index(old(m).owners@, owner_to_remove);
            &&& 0 <= idx < old(m).owners@.len()
            &&& old(m).owners@[idx] == owner_to_remove
            &&& *final(m) == (Multisig { owners: final(m).owners, ..*old(m) })
            &&& final(m).owners@ == old(m).owners@.remove(idx)
            &&& final(m).wf()
            &&& *final(tx) == (Transaction { executed: true, ..*old(tx) })
            &&& ev == (OwnerRemoved {
                multisig: multisig_address,
                transaction_id,
                removed_owner: owner_to_remove,
                total_owners: (old(m).owners@.len() - 1) as u8,
                removed_at: now,
            })
        },
{
    if let Err(e) = admin_gate(m, tx, multisig_address, transaction_id, now) {
        return Err(e);
    }
    let idx = match m.find_owner(owner_to_remove) {
        Some(i) => i,
        None => {
            return Err(MultisigError::OwnerNotFound);
        },
    };
    let remaining = m.owners.len() - 1;
    if m.threshold as usize > remaining {
        return Err(MultisigError::InvalidThreshold);
    }
    if m.admin_threshold as usize > remaining {
        return Err(MultisigError::InvalidAdminThreshold);
    }
    if remaining == 0 {
        return Err(MultisigError::NoOwners);
    }
    proof {
        // The owners are distinct, so the found position is the unique one
        // the specification names.
        let j = owner_index(m.owners@, owner_to_remove);
        assert(0 <= j < m.owners@.len() && m.owners@[j] == owner_to_remove);
        assert(j == idx as int);
    }
    let ghost pre = m.owners@;
    let total_owners = remaining as u8;
    m.owners.remove(idx);
    proof {
        // Removal keeps the remaining owners distinct and non-null: every
        // remaining entry is an entry of the old sequence.
        assert forall|p: int| 0 <= p < m.owners@.len() implies !(
        #[trigger] m.owners@[p]).spec_is_null() by {
            if p < idx as int {
                assert(m.owners@[p] == pre[p]);
            } else {
                assert(m.owners@[p] == pre[p + 1]);
            }
        }
        assert forall|p: int, q: int| 0 <= p < q < m.owners@.len() implies m.owners@[p]
            != m.owners@[q] by {
            let p0 = if p < idx as int {
                p
            } else {
                p + 1
            };
            let q0 = if q < idx as int {
                q
            } else {
                q + 1
            };
            assert(m.owners@[p] == pre[p0] && m.owners@[q] == pre[q0]);
        }
    }
    tx.executed = true;
    Ok(
        OwnerRemoved {
            multisig: multisig_address,
            transaction_id,
            removed_owner: owner_to_remove,
            total_owners,
            removed_at: now,
        },
    )
}

/// The first failed check of `unpause`; `None` exactly when the unpause is
/// accepted. Unlike the admin-gated amendments this rides the ordinary
/// threshold and performs no expiry or payload validation: a paused
/// multisig must stay recoverable.
pub open spec fn spec_unpause_error(
    m: Multisig,
    tx: Transaction,
    multisig_address: Pubkey,
    transaction_id: u64,
) -> Option<MultisigError> {
    if tx.multisig != multisig_address {
        Some(MultisigError::InvalidTransaction)
    } else if tx.transaction_id != transaction_id {
        Some(MultisigError::InvalidTransactionId)
    } else if !m.paused {
        Some(MultisigError::NotPaused)
    } else if tx.executed {
        Some(MultisigError::AlreadyExecuted)
    } else if !tx.spec_is_ready(m.threshold) {
        Some(MultisigError::NotEnoughApprovals)
    } else {
        None
    }
}

/// Clears the pause latch and its audit fields once the record has reached
/// the ordinary threshold, and marks the record executed. On failure both
/// are untouched.
pub fn unpause(
    m: &mut Multisig,
    tx: &mut Transaction,
    multisig_address: Pubkey,
    transaction_id: u64,
    now: i64,
) -> (r: Result<MultisigUnpaused, MultisigError>)
    ensures
        r is Ok <==> spec_unpause_error(*old(m), *old(tx), multisig_address, transaction_id)
            is None,
        r matches Err(e) ==> spec_unpause_error(*old(m), *old(tx), multisig_address, transaction_id)
            == Some(e) && *final(m) == *old(m) && *final(tx) == *old(tx),
        r matches Ok(ev) ==> {
            &&& *final(m) == (Multisig {
                paused: false,
                paused_by: (Pubkey { value: 0 }),
                paused_at: 0,
                ..*old(m)
            })
            &&& *final(tx) == (Transaction { executed: true, ..*old(tx) })
            &&& ev == (MultisigUnpaused { multisig: multisig_address, transaction_id, unpaused_at: now })
        },
{
    if tx.multisig != multisig_address {
        return Err(MultisigError::InvalidTransaction);
    }
    if tx.transaction_id != transaction_id {
        return Err(MultisigError::InvalidTransactionId);
    }
    if !m.paused {
        return Err(MultisigError::NotPaused);
    }
    if tx.executed {
        return Err(MultisigError::AlreadyExecuted);
    }
    if !tx.is_ready_to_execute(m.threshold) {
        return Err(MultisigError::NotEnoughApprovals);
    }
    m.paused = false;
    m.paused_by = Pubkey::null();
    m.paused_at = 0;
    tx.executed = true;
    Ok(MultisigUnpaused { multisig: multisig_address, transaction_id, unpaused_at: now })
}

} // verus!

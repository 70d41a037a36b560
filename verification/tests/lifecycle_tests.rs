use multisig_module::admin::{add_owner, change_threshold, remove_owner, unpause};
use multisig_module::errors::MultisigError;
use multisig_module::helpers::calculate_instruction_complexity;
use multisig_module::multisig::{create_multisig, emergency_pause};
use multisig_module::state::{Multisig, Pubkey, Transaction, TransactionType};
use multisig_module::transaction::{approve_transaction, execute_transaction, propose_transaction};

fn pk(value: u64) -> Pubkey {
    Pubkey { value }
}

const MS_ADDR: Pubkey = Pubkey { value: 100 };
const A: Pubkey = Pubkey { value: 1 };
const B: Pubkey = Pubkey { value: 2 };
const C: Pubkey = Pubkey { value: 3 };
const NOW: i64 = 1000;
const SLOT: u64 = 20;

/// A fresh `[A, B, C]` multisig with threshold 2 and admin threshold 3.
fn new_multisig() -> Multisig {
    let (m, _) = create_multisig(MS_ADDR, A, vec![A, B, C], 2, Some(3), NOW).unwrap();
    m
}

/// Proposes a record of the given type on `m` at `NOW`/`SLOT` with its
/// current nonce.
fn propose(m: &mut Multisig, tt: TransactionType) -> Transaction {
    let nonce = m.nonce;
    let (tx, _) =
        propose_transaction(m, MS_ADDR, A, vec![1, 2, 3], nonce, tt, None, NOW, SLOT).unwrap();
    tx
}

#[test]
fn scenario_transfer_two_of_three() {
    let mut m = new_multisig();
    let (tx, ev) = propose_transaction(
        &mut m,
        MS_ADDR,
        A,
        vec![9, 9],
        0,
        TransactionType::Transfer,
        None,
        NOW,
        SLOT,
    )
    .expect("proposal should be accepted");
    let mut tx = tx;
    assert_eq!(ev.transaction_id, 0);
    assert_eq!(tx.approvals, vec![false, false, false]);
    assert_eq!(m.transaction_count, 1);
    assert_eq!(m.nonce, 1);
    assert_eq!(m.last_proposal_slot, SLOT);

    let ev = approve_transaction(&mut tx, &m, MS_ADDR, B, 0, NOW).expect("B may approve");
    assert_eq!(tx.approvals, vec![false, true, false]);
    assert_eq!(ev.approval_count, 1);
    assert_eq!(ev.required_approvals, 2);

    let r = execute_transaction(&mut tx, &m, MS_ADDR, A, 0, NOW, SLOT + 2);
    assert_eq!(r.err(), Some(MultisigError::NotEnoughApprovals));
    assert!(!tx.executed);

    approve_transaction(&mut tx, &m, MS_ADDR, C, 0, NOW).expect("C may approve");
    assert_eq!(tx.approval_count(), 2);

    let ev = execute_transaction(&mut tx, &m, MS_ADDR, A, 0, NOW, SLOT + 2)
        .expect("two approvals reach the threshold");
    assert!(tx.executed);
    assert_eq!(ev.approval_count, 2);
    assert_eq!(ev.executed_at, NOW);

    let r = execute_transaction(&mut tx, &m, MS_ADDR, A, 0, NOW, SLOT + 2);
    assert_eq!(r.err(), Some(MultisigError::AlreadyExecuted));
}

#[test]
fn scenario_change_threshold_needs_admin_approvals() {
    let mut m = new_multisig();
    let mut tx = propose(&mut m, TransactionType::ChangeThreshold);

    approve_transaction(&mut tx, &m, MS_ADDR, A, 0, NOW).unwrap();
    approve_transaction(&mut tx, &m, MS_ADDR, B, 0, NOW).unwrap();
    let r = change_threshold(&mut m, &mut tx, MS_ADDR, 0, 1, NOW);
    assert_eq!(r.err(), Some(MultisigError::NotEnoughAdminApprovals));
    assert_eq!(m.threshold, 2);
    assert!(!tx.executed);

    approve_transaction(&mut tx, &m, MS_ADDR, C, 0, NOW).unwrap();
    let ev = change_threshold(&mut m, &mut tx, MS_ADDR, 0, 1, NOW)
        .expect("three approvals reach the admin threshold");
    assert_eq!(m.threshold, 1);
    assert!(tx.executed);
    assert_eq!(ev.old_threshold, 2);
    assert_eq!(ev.new_threshold, 1);
}

#[test]
fn scenario_nonce_and_rate_limit() {
    let mut m = new_multisig();
    let r = propose_transaction(
        &mut m,
        MS_ADDR,
        A,
        vec![1],
        5,
        TransactionType::Transfer,
        None,
        NOW,
        SLOT,
    );
    assert_eq!(r.err(), Some(MultisigError::InvalidNonce));
    assert_eq!(m.nonce, 0);

    propose_transaction(&mut m, MS_ADDR, A, vec![1], 0, TransactionType::Transfer, None, NOW, SLOT)
        .expect("correct nonce is accepted");

    let r = propose_transaction(
        &mut m,
        MS_ADDR,
        A,
        vec![1],
        1,
        TransactionType::Transfer,
        None,
        NOW,
        SLOT + 5,
    );
    assert_eq!(r.err(), Some(MultisigError::RateLimitExceeded));

    propose_transaction(
        &mut m,
        MS_ADDR,
        A,
        vec![1],
        1,
        TransactionType::Transfer,
        None,
        NOW,
        SLOT + 11,
    )
    .expect("a proposal outside the ten-slot window is accepted");
}

#[test]
fn scenario_pause_blocks_proposals_until_threshold_unpause() {
    let mut m = new_multisig();
    let mut tx = propose(&mut m, TransactionType::AdminAction);
    approve_transaction(&mut tx, &m, MS_ADDR, B, 0, NOW).unwrap();
    approve_transaction(&mut tx, &m, MS_ADDR, C, 0, NOW).unwrap();

    emergency_pause(&mut m, MS_ADDR, A, NOW + 1).unwrap();
    assert!(m.paused);

    let r = propose_transaction(
        &mut m,
        MS_ADDR,
        A,
        vec![1],
        1,
        TransactionType::Transfer,
        None,
        NOW,
        SLOT + 20,
    );
    assert_eq!(r.err(), Some(MultisigError::MultisigPaused));

    let ev = unpause(&mut m, &mut tx, MS_ADDR, 0, NOW + 2)
        .expect("a ballot at the ordinary threshold unpauses");
    assert!(!m.paused);
    assert_eq!(m.paused_by, pk(0));
    assert_eq!(m.paused_at, 0);
    assert!(tx.executed);
    assert_eq!(ev.unpaused_at, NOW + 2);
}

#[test]
fn unpause_requires_paused_state() {
    let mut m = new_multisig();
    let mut tx = propose(&mut m, TransactionType::Transfer);
    approve_transaction(&mut tx, &m, MS_ADDR, A, 0, NOW).unwrap();
    approve_transaction(&mut tx, &m, MS_ADDR, B, 0, NOW).unwrap();
    let r = unpause(&mut m, &mut tx, MS_ADDR, 0, NOW);
    assert_eq!(r.err(), Some(MultisigError::NotPaused));
}

#[test]
fn unpause_requires_threshold_approvals() {
    let mut m = new_multisig();
    let mut tx = propose(&mut m, TransactionType::Transfer);
    approve_transaction(&mut tx, &m, MS_ADDR, A, 0, NOW).unwrap();
    emergency_pause(&mut m, MS_ADDR, B, NOW).unwrap();
    let r = unpause(&mut m, &mut tx, MS_ADDR, 0, NOW);
    assert_eq!(r.err(), Some(MultisigError::NotEnoughApprovals));
    assert!(m.paused);
}

#[test]
fn approve_twice_by_same_owner_is_rejected_once() {
    let mut m = new_multisig();
    let mut tx = propose(&mut m, TransactionType::Transfer);
    approve_transaction(&mut tx, &m, MS_ADDR, B, 0, NOW).expect("first approval lands");
    let r = approve_transaction(&mut tx, &m, MS_ADDR, B, 0, NOW);
    assert_eq!(r.err(), Some(MultisigError::AlreadyApproved));
    assert_eq!(tx.approval_count(), 1);
}

#[test]
fn approve_rejection_is_idempotent_across_other_approvals() {
    let mut m = new_multisig();
    let mut tx = propose(&mut m, TransactionType::Transfer);
    approve_transaction(&mut tx, &m, MS_ADDR, B, 0, NOW).unwrap();
    approve_transaction(&mut tx, &m, MS_ADDR, A, 0, NOW).unwrap();
    let r = approve_transaction(&mut tx, &m, MS_ADDR, B, 0, NOW);
    assert_eq!(r.err(), Some(MultisigError::AlreadyApproved));
    approve_transaction(&mut tx, &m, MS_ADDR, C, 0, NOW).unwrap();
    let r = approve_transaction(&mut tx, &m, MS_ADDR, B, 0, NOW);
    assert_eq!(r.err(), Some(MultisigError::AlreadyApproved));
    assert_eq!(tx.approval_count(), 3);
}

#[test]
fn approval_count_never_exceeds_owner_count_and_never_decreases() {
    let mut m = new_multisig();
    let mut tx = propose(&mut m, TransactionType::Transfer);
    let mut last = tx.approval_count();
    assert_eq!(last, 0);
    for owner in [A, B, C] {
        approve_transaction(&mut tx, &m, MS_ADDR, owner, 0, NOW).unwrap();
        let count = tx.approval_count();
        assert!(count >= last);
        assert!(count <= m.owners.len());
        last = count;
    }
    assert_eq!(last, 3);
}

#[test]
fn execute_at_exact_threshold_boundary() {
    let mut m = new_multisig();
    let mut tx = propose(&mut m, TransactionType::Transfer);
    approve_transaction(&mut tx, &m, MS_ADDR, A, 0, NOW).unwrap();
    assert_eq!(tx.approval_count(), 1);
    let r = execute_transaction(&mut tx, &m, MS_ADDR, B, 0, NOW, SLOT + 2);
    assert_eq!(r.err(), Some(MultisigError::NotEnoughApprovals));
    approve_transaction(&mut tx, &m, MS_ADDR, B, 0, NOW).unwrap();
    assert_eq!(tx.approval_count(), 2);
    execute_transaction(&mut tx, &m, MS_ADDR, B, 0, NOW, SLOT + 2)
        .expect("execution succeeds at exactly the threshold");
}

#[test]
fn expiry_boundary_for_approve_and_execute() {
    let mut m = new_multisig();
    let mut tx = propose(&mut m, TransactionType::Transfer);
    let expires_at = tx.expires_at;
    assert_eq!(expires_at, NOW + 72 * 3600);

    approve_transaction(&mut tx, &m, MS_ADDR, A, 0, expires_at)
        .expect("approval at the expiry instant is accepted");
    let r = approve_transaction(&mut tx, &m, MS_ADDR, B, 0, expires_at + 1);
    assert_eq!(r.err(), Some(MultisigError::TransactionExpired));

    approve_transaction(&mut tx, &m, MS_ADDR, B, 0, expires_at).unwrap();
    let r = execute_transaction(&mut tx, &m, MS_ADDR, A, 0, expires_at + 1, SLOT + 2);
    assert_eq!(r.err(), Some(MultisigError::TransactionExpired));
    execute_transaction(&mut tx, &m, MS_ADDR, A, 0, expires_at, SLOT + 2)
        .expect("execution at the expiry instant is accepted");
}

#[test]
fn custom_expiry_hours_are_respected() {
    let mut m = new_multisig();
    let (tx, _) = propose_transaction(
        &mut m,
        MS_ADDR,
        A,
        vec![1],
        0,
        TransactionType::Transfer,
        Some(2),
        NOW,
        SLOT,
    )
    .unwrap();
    assert_eq!(tx.expires_at, NOW + 2 * 3600);
}

#[test]
fn execute_in_next_slot_is_rejected() {
    let mut m = new_multisig();
    let mut tx = propose(&mut m, TransactionType::Transfer);
    approve_transaction(&mut tx, &m, MS_ADDR, A, 0, NOW).unwrap();
    approve_transaction(&mut tx, &m, MS_ADDR, B, 0, NOW).unwrap();
    let r = execute_transaction(&mut tx, &m, MS_ADDR, A, 0, NOW, SLOT);
    assert_eq!(r.err(), Some(MultisigError::SameSlotExecution));
    let r = execute_transaction(&mut tx, &m, MS_ADDR, A, 0, NOW, SLOT + 1);
    assert_eq!(r.err(), Some(MultisigError::SameSlotExecution));
    execute_transaction(&mut tx, &m, MS_ADDR, A, 0, NOW, SLOT + 2)
        .expect("two slots later is allowed");
}

#[test]
fn admin_action_requires_admin_threshold_at_execute() {
    let mut m = new_multisig();
    let mut tx = propose(&mut m, TransactionType::AdminAction);
    approve_transaction(&mut tx, &m, MS_ADDR, A, 0, NOW).unwrap();
    approve_transaction(&mut tx, &m, MS_ADDR, B, 0, NOW).unwrap();
    let r = execute_transaction(&mut tx, &m, MS_ADDR, A, 0, NOW, SLOT + 2);
    assert_eq!(r.err(), Some(MultisigError::NotEnoughApprovals));
    approve_transaction(&mut tx, &m, MS_ADDR, C, 0, NOW).unwrap();
    execute_transaction(&mut tx, &m, MS_ADDR, A, 0, NOW, SLOT + 2)
        .expect("admin threshold reached");
}

#[test]
fn propose_rejects_bad_payloads_and_callers() {
    let mut m = new_multisig();
    let r = propose_transaction(
        &mut m,
        MS_ADDR,
        A,
        vec![],
        0,
        TransactionType::Transfer,
        None,
        NOW,
        SLOT,
    );
    assert_eq!(r.err(), Some(MultisigError::EmptyTransaction));

    let r = propose_transaction(
        &mut m,
        MS_ADDR,
        A,
        vec![0; 1001],
        0,
        TransactionType::Transfer,
        None,
        NOW,
        SLOT,
    );
    assert_eq!(r.err(), Some(MultisigError::TransactionTooLarge));

    let r = propose_transaction(
        &mut m,
        MS_ADDR,
        pk(9),
        vec![1],
        0,
        TransactionType::Transfer,
        None,
        NOW,
        SLOT,
    );
    assert_eq!(r.err(), Some(MultisigError::OwnerNotFound));
    assert_eq!(m.nonce, 0);
    assert_eq!(m.transaction_count, 0);
}

#[test]
fn propose_rejects_overly_complex_payload() {
    let mut m = new_multisig();
    // 44 bytes of 0xff: eleven full chunks above one million plus four
    // length points, scoring 114.
    let data = vec![0xff; 44];
    assert_eq!(calculate_instruction_complexity(&data), 114);
    let r = propose_transaction(
        &mut m,
        MS_ADDR,
        A,
        data,
        0,
        TransactionType::Transfer,
        None,
        NOW,
        SLOT,
    );
    assert_eq!(r.err(), Some(MultisigError::TransactionTooComplex));
}

#[test]
fn complexity_scores_exact_values() {
    assert_eq!(calculate_instruction_complexity(&vec![]), 0);
    assert_eq!(calculate_instruction_complexity(&vec![0; 100]), 10);
    // Two chunks of 0xffffffff: 8 / 10 == 0 length points plus 20.
    assert_eq!(calculate_instruction_complexity(&vec![0xff; 8]), 20);
    // 1,000,000 little-endian (0x40, 0x42, 0x0f, 0x00) is not above the cut.
    assert_eq!(calculate_instruction_complexity(&vec![0x40, 0x42, 0x0f, 0x00]), 0);
    // 1,000,001 little-endian is.
    assert_eq!(calculate_instruction_complexity(&vec![0x41, 0x42, 0x0f, 0x00]), 10);
    // A trailing partial chunk is not scored.
    assert_eq!(calculate_instruction_complexity(&vec![0xff, 0xff, 0xff]), 0);
}

#[test]
fn propose_rejects_counter_overflow() {
    let mut m = new_multisig();
    m.nonce = u64::MAX;
    let r = propose_transaction(
        &mut m,
        MS_ADDR,
        A,
        vec![1],
        u64::MAX,
        TransactionType::Transfer,
        None,
        NOW,
        SLOT,
    );
    assert_eq!(r.err(), Some(MultisigError::NonceOverflow));

    let mut m = new_multisig();
    m.transaction_count = u64::MAX;
    let r = propose_transaction(
        &mut m,
        MS_ADDR,
        A,
        vec![1],
        0,
        TransactionType::Transfer,
        None,
        NOW,
        SLOT,
    );
    assert_eq!(r.err(), Some(MultisigError::TransactionCountOverflow));
    assert_eq!(m.nonce, 0, "a failed proposal leaves the state unchanged");
}

#[test]
fn approve_rejects_mismatched_references() {
    let mut m = new_multisig();
    let mut tx = propose(&mut m, TransactionType::Transfer);
    let r = approve_transaction(&mut tx, &m, pk(999), B, 0, NOW);
    assert_eq!(r.err(), Some(MultisigError::InvalidTransaction));
    let r = approve_transaction(&mut tx, &m, MS_ADDR, B, 7, NOW);
    assert_eq!(r.err(), Some(MultisigError::InvalidTransactionId));
    let r = approve_transaction(&mut tx, &m, MS_ADDR, pk(9), 0, NOW);
    assert_eq!(r.err(), Some(MultisigError::OwnerNotFound));
    let r = execute_transaction(&mut tx, &m, pk(999), A, 0, NOW, SLOT + 2);
    assert_eq!(r.err(), Some(MultisigError::InvalidTransaction));
    let r = execute_transaction(&mut tx, &m, MS_ADDR, A, 7, NOW, SLOT + 2);
    assert_eq!(r.err(), Some(MultisigError::InvalidTransactionId));
}

#[test]
fn paused_multisig_blocks_approve_and_execute() {
    let mut m = new_multisig();
    let mut tx = propose(&mut m, TransactionType::Transfer);
    approve_transaction(&mut tx, &m, MS_ADDR, A, 0, NOW).unwrap();
    approve_transaction(&mut tx, &m, MS_ADDR, B, 0, NOW).unwrap();
    emergency_pause(&mut m, MS_ADDR, C, NOW).unwrap();
    let r = approve_transaction(&mut tx, &m, MS_ADDR, C, 0, NOW);
    assert_eq!(r.err(), Some(MultisigError::MultisigPaused));
    let r = execute_transaction(&mut tx, &m, MS_ADDR, A, 0, NOW, SLOT + 2);
    assert_eq!(r.err(), Some(MultisigError::MultisigPaused));
}

#[test]
fn add_owner_grows_the_set_and_orphans_pending_ballots() {
    let mut m = new_multisig();
    let mut admin_tx = propose(&mut m, TransactionType::AdminAction);
    let mut pending = {
        let (tx, _) = propose_transaction(
            &mut m,
            MS_ADDR,
            B,
            vec![5],
            1,
            TransactionType::Transfer,
            None,
            NOW,
            SLOT + 11,
        )
        .unwrap();
        tx
    };
    for owner in [A, B, C] {
        approve_transaction(&mut admin_tx, &m, MS_ADDR, owner, 0, NOW).unwrap();
    }
    let ev = add_owner(&mut m, &mut admin_tx, MS_ADDR, 0, pk(4), NOW)
        .expect("three approvals reach the admin threshold");
    assert_eq!(m.owners, vec![A, B, C, pk(4)]);
    assert!(m.validate_state().is_ok());
    assert!(admin_tx.executed);
    assert_eq!(ev.total_owners, 4);

    // The pending record's ballot is sized to the old owner set; the
    // membership change orphans it.
    let r = approve_transaction(&mut pending, &m, MS_ADDR, C, 1, NOW);
    assert_eq!(r.err(), Some(MultisigError::ApprovalArrayMismatch));
}

#[test]
fn add_owner_rejects_null_duplicate_and_full_set() {
    let mut m = new_multisig();
    let mut tx = propose(&mut m, TransactionType::AdminAction);
    for owner in [A, B, C] {
        approve_transaction(&mut tx, &m, MS_ADDR, owner, 0, NOW).unwrap();
    }
    let r = add_owner(&mut m, &mut tx, MS_ADDR, 0, pk(0), NOW);
    assert_eq!(r.err(), Some(MultisigError::InvalidOwner));
    let r = add_owner(&mut m, &mut tx, MS_ADDR, 0, B, NOW);
    assert_eq!(r.err(), Some(MultisigError::DuplicateOwners));
    assert_eq!(m.owners.len(), 3);
    assert!(!tx.executed);
}

#[test]
fn remove_owner_shrinks_the_set_when_thresholds_still_fit() {
    let (mut m, _) = create_multisig(MS_ADDR, A, vec![A, B, C], 2, Some(2), NOW).unwrap();
    let (mut tx, _) = propose_transaction(
        &mut m,
        MS_ADDR,
        A,
        vec![1],
        0,
        TransactionType::AdminAction,
        None,
        NOW,
        SLOT,
    )
    .unwrap();
    approve_transaction(&mut tx, &m, MS_ADDR, A, 0, NOW).unwrap();
    approve_transaction(&mut tx, &m, MS_ADDR, B, 0, NOW).unwrap();
    let ev = remove_owner(&mut m, &mut tx, MS_ADDR, 0, C, NOW).expect("thresholds still fit");
    assert_eq!(m.owners, vec![A, B]);
    assert!(m.validate_state().is_ok());
    assert_eq!(ev.total_owners, 2);
    assert_eq!(ev.removed_owner, C);
}

#[test]
fn remove_owner_rejects_when_threshold_would_not_fit() {
    let mut m = new_multisig();
    let mut tx = propose(&mut m, TransactionType::AdminAction);
    for owner in [A, B, C] {
        approve_transaction(&mut tx, &m, MS_ADDR, owner, 0, NOW).unwrap();
    }
    // The admin threshold is 3; two remaining owners cannot cover it.
    let r = remove_owner(&mut m, &mut tx, MS_ADDR, 0, C, NOW);
    assert_eq!(r.err(), Some(MultisigError::InvalidAdminThreshold));
    assert_eq!(m.owners.len(), 3);
    let r = remove_owner(&mut m, &mut tx, MS_ADDR, 0, pk(9), NOW);
    assert_eq!(r.err(), Some(MultisigError::OwnerNotFound));
}

#[test]
fn change_threshold_validates_the_new_value() {
    let mut m = new_multisig();
    let mut tx = propose(&mut m, TransactionType::AdminAction);
    for owner in [A, B, C] {
        approve_transaction(&mut tx, &m, MS_ADDR, owner, 0, NOW).unwrap();
    }
    let r = change_threshold(&mut m, &mut tx, MS_ADDR, 0, 0, NOW);
    assert_eq!(r.err(), Some(MultisigError::InvalidThreshold));
    let r = change_threshold(&mut m, &mut tx, MS_ADDR, 0, 4, NOW);
    assert_eq!(r.err(), Some(MultisigError::InvalidThreshold));
    assert_eq!(m.threshold, 2);
    change_threshold(&mut m, &mut tx, MS_ADDR, 0, 3, NOW).expect("three owners cover three");
    assert_eq!(m.threshold, 3);
}

#[test]
fn admin_operations_check_record_references() {
    let mut m = new_multisig();
    let mut tx = propose(&mut m, TransactionType::AdminAction);
    for owner in [A, B, C] {
        approve_transaction(&mut tx, &m, MS_ADDR, owner, 0, NOW).unwrap();
    }
    let r = change_threshold(&mut m, &mut tx, pk(999), 0, 1, NOW);
    assert_eq!(r.err(), Some(MultisigError::InvalidTransaction));
    let r = add_owner(&mut m, &mut tx, MS_ADDR, 5, pk(4), NOW);
    assert_eq!(r.err(), Some(MultisigError::InvalidTransactionId));
    let r = remove_owner(&mut m, &mut tx, MS_ADDR, 5, C, NOW);
    assert_eq!(r.err(), Some(MultisigError::InvalidTransactionId));
    let r = unpause(&mut m, &mut tx, pk(999), 0, NOW);
    assert_eq!(r.err(), Some(MultisigError::InvalidTransaction));
    let r = unpause(&mut m, &mut tx, MS_ADDR, 5, NOW);
    assert_eq!(r.err(), Some(MultisigError::InvalidTransactionId));
}

#[test]
fn admin_operations_reject_expired_records() {
    let mut m = new_multisig();
    let mut tx = propose(&mut m, TransactionType::AdminAction);
    for owner in [A, B, C] {
        approve_transaction(&mut tx, &m, MS_ADDR, owner, 0, NOW).unwrap();
    }
    let late = tx.expires_at + 1;
    let r = change_threshold(&mut m, &mut tx, MS_ADDR, 0, 1, late);
    assert_eq!(r.err(), Some(MultisigError::TransactionExpired));
    let r = add_owner(&mut m, &mut tx, MS_ADDR, 0, pk(4), late);
    assert_eq!(r.err(), Some(MultisigError::TransactionExpired));
}

#[test]
fn record_state_checks_report_expiry_and_sizing() {
    let mut m = new_multisig();
    let tx = propose(&mut m, TransactionType::Transfer);
    assert!(!tx.is_expired(tx.expires_at));
    assert!(tx.is_expired(tx.expires_at + 1));
    assert!(tx.validate_state(&m, NOW).is_ok());
    assert_eq!(
        tx.validate_state(&m, tx.expires_at + 1).err(),
        Some(MultisigError::TransactionExpired)
    );
    assert!(!tx.is_ready_to_execute(2));
    assert!(!tx.is_admin_ready_to_execute(3));
}

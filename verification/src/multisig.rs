//! Creation of a custody group and the single-signature emergency pause.
//! Pausing is deliberately asymmetric: any one owner may pause at once
//! ("break glass"), while unpausing takes a full threshold ballot (see the
//! admin operations).

use vstd::prelude::*;

use crate::errors::MultisigError;
use crate::events::{MultisigCreated, MultisigPaused};
use crate::state::{owners_ok, Multisig, Pubkey, MAX_OWNERS};

verus! {

/// The admin threshold a creation request asks for: the explicit value, or
/// the ordinary threshold when unspecified.
pub open spec fn effective_admin_threshold(threshold: u8, admin_threshold: Option<u8>) -> u8 {
    match admin_threshold {
        Some(t) => t,
        None => threshold,
    }
}

/// When creation succeeds: one to ten distinct non-null owners, the
/// ordinary threshold within `1..=len(owners)`, and the admin threshold
/// (explicit or defaulted) between the ordinary one and `len(owners)`.
pub open spec fn spec_create_ok(
    owners: Seq<Pubkey>,
    threshold: u8,
    admin_threshold: Option<u8>,
) -> bool {
    let eff = effective_admin_threshold(threshold, admin_threshold);
    &&& owners_ok(owners)
    &&& 1 <= threshold <= owners.len()
    &&& threshold <= eff <= owners.len()
}

/// The first failed creation check, in the order `create_multisig` performs
/// them; `None` exactly when `spec_create_ok` holds.
pub open spec fn spec_create_error(
    owners: Seq<Pubkey>,
    threshold: u8,
    admin_threshold: Option<u8>,
) -> Option<MultisigError> {
    let eff = effective_admin_threshold(threshold, admin_threshold);
    if owners.len() == 0 {
        Some(MultisigError::NoOwners)
    } else if owners.len() > MAX_OWNERS {
        Some(MultisigError::TooManyOwners)
    } else if !(1 <= threshold && threshold <= owners.len()) {
        Some(MultisigError::InvalidThreshold)
    } else if !(threshold <= eff && eff <= owners.len()) {
        Some(MultisigError::InvalidAdminThreshold)
    } else if exists|i: int| 0 <= i < owners.len() && (#[trigger] owners[i]).spec_is_null() {
        Some(MultisigError::InvalidOwner)
    } else if exists|i: int, j: int| 0 <= i < j < owners.len() && owners[i] == owners[j] {
        Some(MultisigError::DuplicateOwners)
    } else {
        None
    }
}

/// An elementwise copy of an owner list.
fn copy_owners(v: &Vec<Pubkey>) -> (r: Vec<Pubkey>)
    ensures
        r@ == v@,
{
    let mut r: Vec<Pubkey> = Vec::new();
    let n = v.len();
    let mut i: usize = 0;
    while i < n
        invariant
            n == v@.len(),
            0 <= i <= n,
            r@ == v@.take(i as int),
        decreases n - i,
    {
        r.push(v[i]);
        proof {
            assert(r@ =~= v@.take(i + 1));
        }
        i += 1;
    }
    proof {
        assert(r@ =~= v@);
    }
    r
}

/// Initializes a custody group after validating the owner set and both
/// thresholds. Succeeds exactly when the request satisfies
/// `spec_create_ok`; on success the new state is well formed, unpaused,
/// with all counters at zero.
///
/// `multisig_address` is the new account's host-derived address and
/// `creator` the verified signer; both only flow into the event.
#[verifier::loop_isolation(false)]
pub fn create_multisig(
    multisig_address: Pubkey,
    creator: Pubkey,
    owners: Vec<Pubkey>,
    threshold: u8,
    admin_threshold: Option<u8>,
    now: i64,
) -> (r: Result<(Multisig, MultisigCreated), MultisigError>)
    ensures
        r is Ok <==> spec_create_ok(owners@, threshold, admin_threshold),
        r matches Err(e) ==> spec_create_error(owners@, threshold, admin_threshold) == Some(e),
        r matches Ok((m, ev)) ==> {
            &&& m.owners@ == owners@
            &&& m.threshold == threshold
            &&& m.admin_threshold == effective_admin_threshold(threshold, admin_threshold)
            &&& m.transaction_count == 0
            &&& !m.paused
            &&& m.paused_by.spec_is_null()
            &&& m.paused_at == 0
            &&& m.created_at == now
            &&& m.nonce == 0
            &&& m.last_proposal_slot == 0
            &&& m.wf()
            &&& ev.multisig == multisig_address
            &&& ev.creator == creator
            &&& ev.owners@ == owners@
            &&& ev.threshold == threshold
            &&& ev.admin_threshold == m.admin_threshold
            &&& ev.created_at == now
        },
{
    let n = owners.len();
    if n == 0 {
        return Err(MultisigError::NoOwners);
    }
    if n > MAX_OWNERS {
        return Err(MultisigError::TooManyOwners);
    }
    if !(1 <= threshold && threshold as usize <= n) {
        return Err(MultisigError::InvalidThreshold);
    }
    let admin_thresh = match admin_threshold {
        Some(t) => t,
        None => threshold,
    };
    if !(threshold <= admin_thresh && admin_thresh as usize <= n) {
        return Err(MultisigError::InvalidAdminThreshold);
    }
    let mut i: usize = 0;
    while i < n
        invariant
            0 <= i <= n,
            forall|j: int| 0 <= j < i ==> !(#[trigger] owners@[j]).spec_is_null(),
        decreases n - i,
    {
        if owners[i].is_null() {
            assert((#[trigger] owners@[i as int]).spec_is_null());
            return Err(MultisigError::InvalidOwner);
        }
        i += 1;
    }
    let mut i: usize = 0;
    while i < n
        invariant
            0 <= i <= n,
            forall|p: int, q: int| 0 <= p < q < n && p < i ==> owners@[p] != owners@[q],
        decreases n - i,
    {
        let mut j: usize = i + 1;
        while j < n
            invariant
                0 <= i < j <= n,
                forall|q: int| i < q < j ==> owners@[i as int] != owners@[q],
            decreases n - j,
        {
            if owners[i] == owners[j] {
                assert(owners@[i as int] == owners@[j as int]);
                return Err(MultisigError::DuplicateOwners);
            }
            j += 1;
        }
        i += 1;
    }
    let event_owners = copy_owners(&owners);
    let multisig = Multisig {
        owners,
        threshold,
        admin_threshold: admin_thresh,
        transaction_count: 0,
        paused: false,
        paused_by: Pubkey::null(),
        paused_at: 0,
        created_at: now,
        nonce: 0,
        last_proposal_slot: 0,
    };
    let event = MultisigCreated {
        multisig: multisig_address,
        creator,
        owners: event_owners,
        threshold,
        admin_threshold: admin_thresh,
        created_at: now,
    };
    Ok((multisig, event))
}

/// The "break glass" operation: any single current owner pauses the
/// multisig immediately, blocking ordinary proposals and executions until
/// a full threshold ballot unpauses it. Fails with `OwnerNotFound` for a
/// non-owner, leaving the state unchanged.
pub fn emergency_pause(
    m: &mut Multisig,
    multisig_address: Pubkey,
    caller: Pubkey,
    now: i64,
) -> (r: Result<MultisigPaused, MultisigError>)
    ensures
        r is Ok <==> old(m).spec_is_member(caller),
        r matches Err(e) ==> e == MultisigError::OwnerNotFound && *final(m) == *old(m),
        r matches Ok(ev) ==> {
            &&& *final(m) == (Multisig { paused: true, paused_by: caller, paused_at: now, ..*old(m) })
            &&& ev == (MultisigPaused { multisig: multisig_address, paused_by: caller, paused_at: now })
        },
{
    if !m.is_member(caller) {
        return Err(MultisigError::OwnerNotFound);
    }
    m.paused = true;
    m.paused_by = caller;
    m.paused_at = now;
    Ok(MultisigPaused { multisig: multisig_address, paused_by: caller, paused_at: now })
}

} // verus!

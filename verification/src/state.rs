//! The durable state: the multisig account (owner set, thresholds,
//! counters, pause flag) and the transaction record (one proposed action
//! with its approval ballot), together with their validity invariants.

use vstd::prelude::*;

use crate::errors::MultisigError;

verus! {

/// An identity on the host ledger (an account address or signer key),
/// reduced to its numeric value. The zero value is the null identity,
/// which may never be an owner.
#[derive(Clone, Copy, PartialEq, Eq, Structural, Debug)]
pub struct Pubkey {
    pub value: u64,
}

impl Pubkey {
    pub open spec fn spec_is_null(self) -> bool {
        self.value == 0
    }

    pub fn is_null(&self) -> (r: bool)
        ensures
            r == self.spec_is_null(),
    {
        self.value == 0
    }

    /// The null identity: what audit fields are cleared to.
    pub fn null() -> (r: Pubkey)
        ensures
            r.spec_is_null(),
    {
        Pubkey { value: 0 }
    }
}

/// The action a transaction record proposes. `AdminAction` is gated on the
/// admin threshold at execution; every other kind on the ordinary one.
#[derive(Clone, Copy, PartialEq, Eq, Structural, Debug)]
pub enum TransactionType {
    Transfer,
    TokenTransfer,
    AdminAction,
    ChangeThreshold,
    AddOwner,
    RemoveOwner,
    Custom,
}

/// The most owners a multisig may have.
pub const MAX_OWNERS: usize = 10;

/// A valid owner set: one to ten identities, none null, pairwise distinct.
pub open spec fn owners_ok(owners: Seq<Pubkey>) -> bool {
    &&& 1 <= owners.len() <= MAX_OWNERS
    &&& forall|i: int| 0 <= i < owners.len() ==> !(#[trigger] owners[i]).spec_is_null()
    &&& forall|i: int, j: int| 0 <= i < j < owners.len() ==> owners[i] != owners[j]
}

/// The index of `who` in `owners`; meaningful only when `owners` contains
/// `who`, and unique when the owners are pairwise distinct.
pub open spec fn owner_index(owners: Seq<Pubkey>, who: Pubkey) -> int {
    choose|i: int| 0 <= i < owners.len() && owners[i] == who
}

/// How many entries of a ballot are set.
pub open spec fn count_true(s: Seq<bool>) -> nat
    decreases s.len(),
{
    if s.len() == 0 {
        0
    } else {
        count_true(s.drop_last()) + if s.last() {
            1nat
        } else {
            0nat
        }
    }
}

/// The largest instruction payload a transaction record may carry, in bytes.
pub const MAX_DATA_LEN: usize = 1000;

/// `count_true` never exceeds the ballot's length.
pub proof fn lemma_count_true_le_len(s: Seq<bool>)
    ensures
        count_true(s) <= s.len(),
    decreases s.len(),
{
    if s.len() > 0 {
        lemma_count_true_le_len(s.drop_last());
    }
}

/// Extending a prefix by one entry adds that entry's bit to the count.
pub proof fn lemma_count_true_take_step(s: Seq<bool>, i: int)
    requires
        0 <= i < s.len(),
    ensures
        count_true(s.take(i + 1)) == count_true(s.take(i)) + if s[i] {
            1nat
        } else {
            0nat
        },
{
    assert(s.take(i + 1).drop_last() =~= s.take(i));
    assert(s.take(i + 1).last() == s[i]);
}

/// Setting one entry to true raises the count by one if it was false and
/// leaves it unchanged if it was already true.
pub proof fn lemma_count_true_update(s: Seq<bool>, i: int)
    requires
        0 <= i < s.len(),
    ensures
        count_true(s.update(i, true)) == count_true(s) + if s[i] {
            0nat
        } else {
            1nat
        },
    decreases s.len(),
{
    let t = s.update(i, true);
    if i == s.len() - 1 {
        assert(t.drop_last() =~= s.drop_last());
    } else {
        assert(t.drop_last() =~= s.drop_last().update(i, true));
        lemma_count_true_update(s.drop_last(), i);
    }
}

/// An all-false ballot has count zero.
pub proof fn lemma_count_true_all_false(s: Seq<bool>)
    requires
        forall|i: int| 0 <= i < s.len() ==> !s[i],
    ensures
        count_true(s) == 0,
    decreases s.len(),
{
    if s.len() > 0 {
        lemma_count_true_all_false(s.drop_last());
    }
}

/// One custody group: the owner set, the two thresholds, the replay and
/// rate-limit counters, and the pause latch.
#[derive(Clone, Debug)]
pub struct Multisig {
    /// The identities that may propose, approve and execute.
    pub owners: Vec<Pubkey>,
    /// Approvals required to execute an ordinary transaction.
    pub threshold: u8,
    /// Approvals required to execute an administrative transaction;
    /// always at least `threshold`.
    pub admin_threshold: u8,
    /// Source of the next transaction's id; increases by one per proposal.
    pub transaction_count: u64,
    /// When true, ordinary proposal and execution paths are blocked.
    pub paused: bool,
    /// Who paused, null when not paused.
    pub paused_by: Pubkey,
    /// When the pause happened, zero when not paused.
    pub paused_at: i64,
    /// Creation timestamp.
    pub created_at: i64,
    /// Must match a proposer's supplied nonce; increases by one per proposal.
    pub nonce: u64,
    /// The ledger slot of the last accepted proposal, for rate limiting.
    pub last_proposal_slot: u64,
}

impl Multisig {
    /// The state invariant: valid owner set and both thresholds in bounds.
    pub open spec fn wf(self) -> bool {
        &&& owners_ok(self.owners@)
        &&& 1 <= self.threshold <= self.owners@.len()
        &&& self.threshold <= self.admin_threshold <= self.owners@.len()
    }

    /// The first violated invariant, in the order `validate_state` checks
    /// them; `None` exactly when the state is well formed.
    pub open spec fn spec_validate(self) -> Option<MultisigError> {
        if self.owners@.len() == 0 {
            Some(MultisigError::NoOwners)
        } else if self.owners@.len() > MAX_OWNERS {
            Some(MultisigError::TooManyOwners)
        } else if !(1 <= self.threshold && self.threshold <= self.owners@.len()) {
            Some(MultisigError::InvalidThreshold)
        } else if !(self.threshold <= self.admin_threshold && self.admin_threshold
            <= self.owners@.len()) {
            Some(MultisigError::InvalidAdminThreshold)
        } else if exists|i: int| 0 <= i < self.owners@.len() && (#[trigger] self.owners@[i]).spec_is_null() {
            Some(MultisigError::InvalidOwner)
        } else if exists|i: int, j: int|
            0 <= i < j < self.owners@.len() && self.owners@[i] == self.owners@[j] {
            Some(MultisigError::DuplicateOwners)
        } else {
            None
        }
    }

    pub open spec fn spec_is_member(self, who: Pubkey) -> bool {
        self.owners@.contains(who)
    }

    /// Whether `who` is a current owner.
    pub fn is_member(&self, who: Pubkey) -> (r: bool)
        ensures
            r == self.spec_is_member(who),
    {
        let n = self.owners.len();
        let mut i: usize = 0;
        while i < n
            invariant
                n == self.owners@.len(),
                0 <= i <= n,
                forall|j: int| 0 <= j < i ==> self.owners@[j] != who,
            decreases n - i,
        {
            if self.owners[i] == who {
                return true;
            }
            i += 1;
        }
        false
    }

    /// The position of `who` among the owners, or `None` for a non-owner.
    pub fn find_owner(&self, who: Pubkey) -> (r: Option<usize>)
        ensures
            match r {
                Some(i) => i < self.owners@.len() && self.owners@[i as int] == who,
                None => !self.spec_is_member(who),
            },
    {
        let n = self.owners.len();
        let mut i: usize = 0;
        while i < n
            invariant
                n == self.owners@.len(),
                0 <= i <= n,
                forall|j: int| 0 <= j < i ==> self.owners@[j] != who,
            decreases n - i,
        {
            if self.owners[i] == who {
                return Some(i);
            }
            i += 1;
        }
        None
    }

    /// Re-checks every invariant, for use at any mutation boundary; returns
    /// the first violation in a fixed order, `Ok` exactly on well-formed
    /// state.
    #[verifier::loop_isolation(false)]
    pub fn validate_state(&self) -> (r: Result<(), MultisigError>)
        ensures
            r is Ok <==> self.wf(),
            r matches Err(e) ==> self.spec_validate() == Some(e),
            r is Ok ==> self.spec_validate() is None,
    {
        let n = self.owners.len();
        if n == 0 {
            return Err(MultisigError::NoOwners);
        }
        if n > MAX_OWNERS {
            return Err(MultisigError::TooManyOwners);
        }
        if !(1 <= self.threshold && self.threshold as usize <= n) {
            return Err(MultisigError::InvalidThreshold);
        }
        if !(self.threshold <= self.admin_threshold && self.admin_threshold as usize <= n) {
            return Err(MultisigError::InvalidAdminThreshold);
        }
        let mut i: usize = 0;
        while i < n
            invariant
                n == self.owners@.len(),
                0 <= i <= n,
                forall|j: int| 0 <= j < i ==> !(#[trigger] self.owners@[j]).spec_is_null(),
            decreases n - i,
        {
            if self.owners[i].is_null() {
                assert((#[trigger] self.owners@[i as int]).spec_is_null());
                return Err(MultisigError::InvalidOwner);
            }
            i += 1;
        }
        let mut i: usize = 0;
        while i < n
            invariant
                n == self.owners@.len(),
                0 <= i <= n,
                forall|p: int, q: int| 0 <= p < q < self.owners@.len() && p < i ==> self.owners@[p]
                    != self.owners@[q],
            decreases n - i,
        {
            let mut j: usize = i + 1;
            while j < n
                invariant
                    n == self.owners@.len(),
                    0 <= i < j <= n,
                    forall|q: int| i < q < j ==> self.owners@[i as int] != self.owners@[q],
                decreases n - j,
            {
                if self.owners[i] == self.owners[j] {
                    assert(self.owners@[i as int] == self.owners@[j as int]);
                    return Err(MultisigError::DuplicateOwners);
                }
                j += 1;
            }
            i += 1;
        }
        Ok(())
    }
}

/// One proposed action and its approval ballot, keyed by
/// `(multisig, transaction_id)`. Created by a proposal, mutated by
/// approvals (one bit flip per distinct owner) and exactly one execution;
/// never deleted.
#[derive(Clone, Debug)]
pub struct Transaction {
    /// Equals the multisig's `transaction_count` at proposal time; immutable.
    pub transaction_id: u64,
    /// Proposal timestamp.
    pub created_at: i64,
    /// Approvals and execution are refused strictly after this timestamp.
    pub expires_at: i64,
    /// Monotonic false-to-true latch set by execution.
    pub executed: bool,
    /// The ledger slot of the proposal; execution in the same or the next
    /// slot is refused.
    pub created_slot: u64,
    /// Back-reference: the owning multisig's account address.
    pub multisig: Pubkey,
    /// The owner that proposed it.
    pub proposer: Pubkey,
    /// Which action the payload encodes, and which threshold gates it.
    pub transaction_type: TransactionType,
    /// One entry per owner position at proposal time; true once that owner
    /// has approved.
    pub approvals: Vec<bool>,
    /// Opaque payload, 1 to 1000 bytes.
    pub instruction_data: Vec<u8>,
}

impl Transaction {
    pub open spec fn spec_approval_count(self) -> nat {
        count_true(self.approvals@)
    }

    /// How many owners have approved so far.
    pub fn approval_count(&self) -> (r: usize)
        ensures
            r == self.spec_approval_count(),
    {
        let n = self.approvals.len();
        let mut count: usize = 0;
        let mut i: usize = 0;
        while i < n
            invariant
                n == self.approvals@.len(),
                0 <= i <= n,
                count <= i,
                count == count_true(self.approvals@.take(i as int)),
            decreases n - i,
        {
            proof {
                lemma_count_true_take_step(self.approvals@, i as int);
            }
            if self.approvals[i] {
                count += 1;
            }
            i += 1;
        }
        proof {
            assert(self.approvals@.take(n as int) =~= self.approvals@);
        }
        count
    }

    pub open spec fn spec_is_expired(self, now: i64) -> bool {
        now > self.expires_at
    }

    /// Whether the record has passed its expiry time. Expiry at exactly
    /// `expires_at` has not happened yet; one tick later it has.
    pub fn is_expired(&self, now: i64) -> (r: bool)
        ensures
            r == self.spec_is_expired(now),
    {
        now > self.expires_at
    }

    /// Whether the ballot has reached `threshold` and the record is still
    /// unexecuted. At least one approval is demanded even for a zero
    /// threshold.
    pub open spec fn spec_is_ready(self, threshold: u8) -> bool {
        &&& !self.executed
        &&& self.spec_approval_count() >= threshold
        &&& self.spec_approval_count() >= 1
    }

    pub fn is_ready_to_execute(&self, threshold: u8) -> (r: bool)
        ensures
            r == self.spec_is_ready(threshold),
    {
        if self.executed {
            return false;
        }
        let count = self.approval_count();
        count >= threshold as usize && count >= 1
    }

    /// Readiness against the administrative threshold.
    pub fn is_admin_ready_to_execute(&self, admin_threshold: u8) -> (r: bool)
        ensures
            r == self.spec_is_ready(admin_threshold),
    {
        self.is_ready_to_execute(admin_threshold)
    }

    /// The first failed payload check against the governing multisig, in
    /// the order `validate_state` performs them; `None` exactly when all
    /// pass.
    pub open spec fn spec_validate(self, m: Multisig, now: i64) -> Option<MultisigError> {
        if self.spec_is_expired(now) {
            Some(MultisigError::TransactionExpired)
        } else if self.approvals@.len() != m.owners@.len() {
            Some(MultisigError::ApprovalArrayMismatch)
        } else if self.instruction_data@.len() == 0 {
            Some(MultisigError::EmptyTransaction)
        } else if self.instruction_data@.len() > MAX_DATA_LEN {
            Some(MultisigError::TransactionTooLarge)
        } else {
            None
        }
    }

    /// Whether the record is still actionable under `m` at time `now`: not
    /// expired, ballot sized to the current owner set, payload bounds kept.
    pub open spec fn spec_valid(self, m: Multisig, now: i64) -> bool {
        self.spec_validate(m, now) is None
    }

    /// Re-checks the record against its multisig: expiry, ballot length
    /// against the current owner count, and payload bounds.
    pub fn validate_state(&self, m: &Multisig, now: i64) -> (r: Result<(), MultisigError>)
        ensures
            r is Ok <==> self.spec_valid(*m, now),
            r matches Err(e) ==> self.spec_validate(*m, now) == Some(e),
    {
        if self.is_expired(now) {
            return Err(MultisigError::TransactionExpired);
        }
        if self.approvals.len() != m.owners.len() {
            return Err(MultisigError::ApprovalArrayMismatch);
        }
        if self.instruction_data.len() == 0 {
            return Err(MultisigError::EmptyTransaction);
        }
        if self.instruction_data.len() > MAX_DATA_LEN {
            return Err(MultisigError::TransactionTooLarge);
        }
        Ok(())
    }
}

} // verus!

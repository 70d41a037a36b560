//! A byte codec for the two persisted record kinds, so a host can store
//! and reload them: fixed-width little-endian integers, one-byte booleans
//! and tags, and length-prefixed lists. Deserialization of anything a
//! serializer produced returns exactly the original value.

use vstd::prelude::*;

use crate::state::{Multisig, Pubkey, Transaction, TransactionType, MAX_DATA_LEN, MAX_OWNERS};

verus! {

/// The eight little-endian bytes of a `u64`.
pub open spec fn spec_u64_le(v: u64) -> Seq<u8> {
    seq![
        (v & 0xff) as u8,
        ((v >> 8) & 0xff) as u8,
        ((v >> 16) & 0xff) as u8,
        ((v >> 24) & 0xff) as u8,
        ((v >> 32) & 0xff) as u8,
        ((v >> 40) & 0xff) as u8,
        ((v >> 48) & 0xff) as u8,
        ((v >> 56) & 0xff) as u8,
    ]
}

/// The `u64` eight little-endian bytes denote.
pub open spec fn spec_u64_of_le(b: Seq<u8>) -> u64 {
    ((b[0] as u64) | ((b[1] as u64) << 8) | ((b[2] as u64) << 16) | ((b[3] as u64) << 24) | (
    (b[4] as u64) << 32) | ((b[5] as u64) << 40) | ((b[6] as u64) << 48) | ((b[7] as u64) << 56))
}

/// Reading back the eight bytes of a `u64` yields the `u64`.
pub proof fn lemma_u64_le_round_trip(v: u64)
    ensures
        spec_u64_of_le(spec_u64_le(v)) == v,
{
    assert((((v & 0xff) as u8 as u64) | ((((v >> 8) & 0xff) as u8 as u64) << 8) | ((((v >> 16)
        & 0xff) as u8 as u64) << 16) | ((((v >> 24) & 0xff) as u8 as u64) << 24) | ((((v >> 32)
        & 0xff) as u8 as u64) << 32) | ((((v >> 40) & 0xff) as u8 as u64) << 40) | ((((v >> 48)
        & 0xff) as u8 as u64) << 48) | ((((v >> 56) & 0xff) as u8 as u64) << 56)) == v)
        by (bit_vector);
}

/// The `u64` an `i64` is stored as: its two's-complement bit pattern.
pub open spec fn spec_i64_to_wire(v: i64) -> u64 {
    if v >= 0 {
        v as u64
    } else {
        (v + 0x10000000000000000) as u64
    }
}

/// The `i64` a stored `u64` denotes.
pub open spec fn spec_wire_to_i64(u: u64) -> i64 {
    if u < 0x8000000000000000 {
        u as i64
    } else {
        (u - 0x10000000000000000) as i64
    }
}

/// Reading back a stored `i64` yields the `i64`.
pub proof fn lemma_i64_wire_round_trip(v: i64)
    ensures
        spec_wire_to_i64(spec_i64_to_wire(v)) == v,
{
}

/// The two little-endian bytes of a `u16`.
pub open spec fn spec_u16_le(v: u16) -> Seq<u8> {
    seq![(v & 0xff) as u8, ((v >> 8) & 0xff) as u8]
}

/// The `u16` two little-endian bytes denote.
pub open spec fn spec_u16_of_le(b: Seq<u8>) -> u16 {
    ((b[0] as u16) | ((b[1] as u16) << 8))
}

/// Reading back the two bytes of a `u16` yields the `u16`.
pub proof fn lemma_u16_le_round_trip(v: u16)
    ensures
        spec_u16_of_le(spec_u16_le(v)) == v,
{
    assert((((v & 0xff) as u8 as u16) | ((((v >> 8) & 0xff) as u8 as u16) << 8)) == v)
        by (bit_vector);
}

/// The byte a boolean is stored as.
pub open spec fn spec_bool_byte(b: bool) -> u8 {
    if b {
        1
    } else {
        0
    }
}

/// The `u64` denoted by the eight bytes of `b` starting at `pos`.
pub open spec fn spec_read_u64(b: Seq<u8>, pos: int) -> u64 {
    spec_u64_of_le(b.subrange(pos, pos + 8))
}

/// If the eight bytes at `pos` are the encoding of `v`, reading there
/// yields `v`.
pub proof fn lemma_read_u64_at(b: Seq<u8>, pos: int, v: u64)
    requires
        0 <= pos,
        pos + 8 <= b.len(),
        forall|i: int| 0 <= i < 8 ==> b[pos + i] == spec_u64_le(v)[i],
    ensures
        spec_read_u64(b, pos) == v,
{
    assert(b.subrange(pos, pos + 8) =~= spec_u64_le(v));
    lemma_u64_le_round_trip(v);
}

/// Appends the eight little-endian bytes of `v`.
fn push_u64_le(out: &mut Vec<u8>, v: u64)
    ensures
        final(out)@ == old(out)@ + spec_u64_le(v),
{
    out.push((v & 0xff) as u8);
    out.push(((v >> 8) & 0xff) as u8);
    out.push(((v >> 16) & 0xff) as u8);
    out.push(((v >> 24) & 0xff) as u8);
    out.push(((v >> 32) & 0xff) as u8);
    out.push(((v >> 40) & 0xff) as u8);
    out.push(((v >> 48) & 0xff) as u8);
    out.push(((v >> 56) & 0xff) as u8);
    proof {
        assert(out@ =~= old(out)@ + spec_u64_le(v));
    }
}

/// Reads the `u64` stored at `pos`.
fn read_u64_le(b: &Vec<u8>, pos: usize) -> (r: u64)
    requires
        pos + 8 <= b@.len(),
    ensures
        r == spec_read_u64(b@, pos as int),
{
    let len = b.len();
    assert(pos + 8 <= len);
    let r = (b[pos] as u64) | ((b[pos + 1] as u64) << 8) | ((b[pos + 2] as u64) << 16) | ((b[pos
        + 3] as u64) << 24) | ((b[pos + 4] as u64) << 32) | ((b[pos + 5] as u64) << 40) | ((b[pos
        + 6] as u64) << 48) | ((b[pos + 7] as u64) << 56);
    proof {
        assert(b@.subrange(pos as int, pos + 8) =~= seq![
            b@[pos as int],
            b@[pos + 1],
            b@[pos + 2],
            b@[pos + 3],
            b@[pos + 4],
            b@[pos + 5],
            b@[pos + 6],
            b@[pos + 7],
        ]);
    }
    r
}

/// Converts an `i64` to its stored form.
fn i64_to_wire(v: i64) -> (u: u64)
    ensures
        u == spec_i64_to_wire(v),
{
    if v >= 0 {
        v as u64
    } else {
        (((v as i128) + 0x10000000000000000i128) as u64)
    }
}

/// Converts a stored form back to its `i64`.
fn wire_to_i64(u: u64) -> (v: i64)
    ensures
        v == spec_wire_to_i64(u),
{
    if u < 0x8000000000000000 {
        u as i64
    } else {
        (((u as i128) - 0x10000000000000000i128) as i64)
    }
}

/// The byte encoding of an owner list: each identity's eight bytes in
/// order.
pub open spec fn spec_ser_owners(owners: Seq<Pubkey>) -> Seq<u8>
    decreases owners.len(),
{
    if owners.len() == 0 {
        Seq::empty()
    } else {
        spec_ser_owners(owners.drop_last()) + spec_u64_le(owners.last().value)
    }
}

/// The owner encoding takes eight bytes per owner.
pub proof fn lemma_ser_owners_len(owners: Seq<Pubkey>)
    ensures
        spec_ser_owners(owners).len() == 8 * owners.len(),
    decreases owners.len(),
{
    if owners.len() > 0 {
        lemma_ser_owners_len(owners.drop_last());
    }
}

/// The bytes of owner `k` sit at positions `8k..8k+8` of the encoding.
pub proof fn lemma_ser_owners_index(owners: Seq<Pubkey>, k: int)
    requires
        0 <= k < owners.len(),
    ensures
        forall|i: int| 0 <= i < 8 ==> spec_ser_owners(owners)[8 * k + i] == spec_u64_le(
            owners[k].value,
        )[i],
    decreases owners.len(),
{
    let s = spec_ser_owners(owners);
    let pre = spec_ser_owners(owners.drop_last());
    lemma_ser_owners_len(owners.drop_last());
    if k == owners.len() - 1 {
        assert forall|i: int| 0 <= i < 8 implies s[8 * k + i] == spec_u64_le(owners[k].value)[i] by {
            assert(8 * k + i >= pre.len());
            assert(s[8 * k + i] == spec_u64_le(owners.last().value)[8 * k + i - pre.len()]);
        }
    } else {
        lemma_ser_owners_index(owners.drop_last(), k);
        assert forall|i: int| 0 <= i < 8 implies s[8 * k + i] == spec_u64_le(owners[k].value)[i] by {
            assert(8 * k + i < pre.len());
            assert(s[8 * k + i] == pre[8 * k + i]);
            assert(owners.drop_last()[k] == owners[k]);
        }
    }
}

/// Whether a multisig fits the serialized form (it always does when well
/// formed: the owner count must fit the count byte).
pub open spec fn multisig_ser_ok(m: Multisig) -> bool {
    m.owners@.len() <= MAX_OWNERS
}

/// The byte encoding of a multisig: the owner count, the owners, both
/// thresholds, then the counters, pause latch and audit fields.
pub open spec fn spec_ser_multisig(m: Multisig) -> Seq<u8> {
    seq![m.owners@.len() as u8] + spec_ser_owners(m.owners@) + seq![m.threshold, m.admin_threshold]
        + spec_u64_le(m.transaction_count) + seq![spec_bool_byte(m.paused)] + spec_u64_le(
        m.paused_by.value,
    ) + spec_u64_le(spec_i64_to_wire(m.paused_at)) + spec_u64_le(spec_i64_to_wire(m.created_at))
        + spec_u64_le(m.nonce) + spec_u64_le(m.last_proposal_slot)
}

/// Serializes a multisig to the form `deserialize_multisig` reads back.
pub fn serialize_multisig(m: &Multisig) -> (r: Vec<u8>)
    requires
        multisig_ser_ok(*m),
    ensures
        r@ == spec_ser_multisig(*m),
{
    let n = m.owners.len();
    let mut out: Vec<u8> = Vec::new();
    out.push(n as u8);
    proof {
        assert(out@ =~= seq![m.owners@.len() as u8]);
    }
    let mut k: usize = 0;
    while k < n
        invariant
            n == m.owners@.len(),
            0 <= k <= n,
            out@ == seq![m.owners@.len() as u8] + spec_ser_owners(m.owners@.take(k as int)),
        decreases n - k,
    {
        push_u64_le(&mut out, m.owners[k].value);
        proof {
            let taken = m.owners@.take(k + 1);
            assert(taken.drop_last() =~= m.owners@.take(k as int));
            assert(taken.last() == m.owners@[k as int]);
            assert(out@ =~= seq![m.owners@.len() as u8] + spec_ser_owners(taken));
        }
        k += 1;
    }
    proof {
        assert(m.owners@.take(n as int) =~= m.owners@);
    }
    out.push(m.threshold);
    out.push(m.admin_threshold);
    proof {
        assert(out@ =~= seq![m.owners@.len() as u8] + spec_ser_owners(m.owners@) + seq![
            m.threshold,
            m.admin_threshold,
        ]);
    }
    push_u64_le(&mut out, m.transaction_count);
    out.push(if m.paused {
        1
    } else {
        0
    });
    proof {
        assert(out@ =~= seq![m.owners@.len() as u8] + spec_ser_owners(m.owners@) + seq![
            m.threshold,
            m.admin_threshold,
        ] + spec_u64_le(m.transaction_count) + seq![spec_bool_byte(m.paused)]);
    }
    push_u64_le(&mut out, m.paused_by.value);
    push_u64_le(&mut out, i64_to_wire(m.paused_at));
    push_u64_le(&mut out, i64_to_wire(m.created_at));
    push_u64_le(&mut out, m.nonce);
    push_u64_le(&mut out, m.last_proposal_slot);
    proof {
        assert(out@ =~= spec_ser_multisig(*m));
    }
    out
}

/// Where each field of a serialized multisig sits: the count byte, the
/// owners, and the fixed-width tail after them.
pub proof fn lemma_ser_multisig_layout(m: Multisig)
    requires
        multisig_ser_ok(m),
    ensures
        ({
            let b = spec_ser_multisig(m);
            let len = m.owners@.len() as int;
            let q = 1 + 8 * len;
            &&& b.len() == 52 + 8 * len
            &&& b[0] == m.owners@.len() as u8
            &&& forall|j: int, i: int|
                0 <= j < len && 0 <= i < 8 ==> b[1 + 8 * j + i] == spec_u64_le(
                    m.owners@[j].value,
                )[i]
            &&& b[q] == m.threshold
            &&& b[q + 1] == m.admin_threshold
            &&& forall|i: int| 0 <= i < 8 ==> b[q + 2 + i] == spec_u64_le(m.transaction_count)[i]
            &&& b[q + 10] == spec_bool_byte(m.paused)
            &&& forall|i: int| 0 <= i < 8 ==> b[q + 11 + i] == spec_u64_le(m.paused_by.value)[i]
            &&& forall|i: int|
                0 <= i < 8 ==> b[q + 19 + i] == spec_u64_le(spec_i64_to_wire(m.paused_at))[i]
            &&& forall|i: int|
                0 <= i < 8 ==> b[q + 27 + i] == spec_u64_le(spec_i64_to_wire(m.created_at))[i]
            &&& forall|i: int| 0 <= i < 8 ==> b[q + 35 + i] == spec_u64_le(m.nonce)[i]
            &&& forall|i: int| 0 <= i < 8 ==> b[q + 43 + i] == spec_u64_le(m.last_proposal_slot)[i]
        }),
{
    let b = spec_ser_multisig(m);
    let len = m.owners@.len() as int;
    lemma_ser_owners_len(m.owners@);
    assert forall|j: int, i: int| 0 <= j < len && 0 <= i < 8 implies b[1 + 8 * j + i]
        == spec_u64_le(m.owners@[j].value)[i] by {
        lemma_ser_owners_index(m.owners@, j);
        assert(b[1 + 8 * j + i] == spec_ser_owners(m.owners@)[8 * j + i]);
    }
}

/// All persisted fields of two multisigs agree.
pub open spec fn multisig_fields_eq(a: Multisig, b: Multisig) -> bool {
    &&& a.owners@ == b.owners@
    &&& a.threshold == b.threshold
    &&& a.admin_threshold == b.admin_threshold
    &&& a.transaction_count == b.transaction_count
    &&& a.paused == b.paused
    &&& a.paused_by == b.paused_by
    &&& a.paused_at == b.paused_at
    &&& a.created_at == b.created_at
    &&& a.nonce == b.nonce
    &&& a.last_proposal_slot == b.last_proposal_slot
}

/// Reads a multisig back from bytes. Whatever `serialize_multisig`
/// produced parses back to a multisig with all fields preserved; bytes
/// from elsewhere may yield `None`.
#[verifier::loop_isolation(false)]
pub fn deserialize_multisig(bytes: &Vec<u8>) -> (r: Option<Multisig>)
    ensures
        forall|m: Multisig|
            multisig_ser_ok(m) && bytes@ == spec_ser_multisig(m) ==> (r matches Some(m2)
                && multisig_fields_eq(m, m2)),
{
    proof {
        assert forall|m: Multisig| multisig_ser_ok(m) && bytes@ == spec_ser_multisig(m) implies {
            &&& bytes@.len() == 52 + 8 * m.owners@.len()
            &&& bytes@[0] == m.owners@.len() as u8
        } by {
            lemma_ser_multisig_layout(m);
        }
    }
    let total = bytes.len();
    if total < 52 {
        return None;
    }
    let n = bytes[0] as usize;
    if n > MAX_OWNERS {
        return None;
    }
    if total != 52 + 8 * n {
        return None;
    }
    let mut owners: Vec<Pubkey> = Vec::new();
    let mut k: usize = 0;
    while k < n
        invariant
            owners@.len() == k,
            0 <= k <= n,
            forall|j: int| 0 <= j < k ==> owners@[j].value == spec_read_u64(bytes@, 1 + 8 * j),
        decreases n - k,
    {
        let v = read_u64_le(bytes, 1 + 8 * k);
        owners.push(Pubkey { value: v });
        k += 1;
    }
    let q = 1 + 8 * n;
    let threshold = bytes[q];
    let admin_threshold = bytes[q + 1];
    let transaction_count = read_u64_le(bytes, q + 2);
    let paused_byte = bytes[q + 10];
    if paused_byte > 1 {
        return None;
    }
    let paused = paused_byte == 1;
    let paused_by = Pubkey { value: read_u64_le(bytes, q + 11) };
    let paused_at = wire_to_i64(read_u64_le(bytes, q + 19));
    let created_at = wire_to_i64(read_u64_le(bytes, q + 27));
    let nonce = read_u64_le(bytes, q + 35);
    let last_proposal_slot = read_u64_le(bytes, q + 43);
    let result = Multisig {
        owners,
        threshold,
        admin_threshold,
        transaction_count,
        paused,
        paused_by,
        paused_at,
        created_at,
        nonce,
        last_proposal_slot,
    };
    proof {
        assert forall|m: Multisig|
            multisig_ser_ok(m) && bytes@ == spec_ser_multisig(m) implies multisig_fields_eq(
            m,
            result,
        ) by {
            let len = m.owners@.len() as int;
            lemma_ser_multisig_layout(m);
            assert(n as int == len);
            assert forall|j: int| 0 <= j < len implies result.owners@[j] == m.owners@[j] by {
                lemma_read_u64_at(bytes@, 1 + 8 * j, m.owners@[j].value);
            }
            assert(result.owners@ =~= m.owners@);
            lemma_read_u64_at(bytes@, q + 2, m.transaction_count);
            lemma_read_u64_at(bytes@, q + 11, m.paused_by.value);
            lemma_read_u64_at(bytes@, q + 19, spec_i64_to_wire(m.paused_at));
            lemma_i64_wire_round_trip(m.paused_at);
            lemma_read_u64_at(bytes@, q + 27, spec_i64_to_wire(m.created_at));
            lemma_i64_wire_round_trip(m.created_at);
            lemma_read_u64_at(bytes@, q + 35, m.nonce);
            lemma_read_u64_at(bytes@, q + 43, m.last_proposal_slot);
        }
    }
    Some(result)
}

/// Serialization is injective: equal stored forms mean equal multisigs.
pub proof fn lemma_ser_multisig_injective(m1: Multisig, m2: Multisig)
    requires
        multisig_ser_ok(m1),
        multisig_ser_ok(m2),
        spec_ser_multisig(m1) == spec_ser_multisig(m2),
    ensures
        multisig_fields_eq(m1, m2),
{
    let b = spec_ser_multisig(m1);
    lemma_ser_multisig_layout(m1);
    lemma_ser_multisig_layout(m2);
    let n = m1.owners@.len() as int;
    assert(m2.owners@.len() as int == n);
    let q = 1 + 8 * n;
    assert forall|j: int| 0 <= j < n implies m1.owners@[j] == m2.owners@[j] by {
        lemma_read_u64_at(b, 1 + 8 * j, m1.owners@[j].value);
        lemma_read_u64_at(b, 1 + 8 * j, m2.owners@[j].value);
    }
    assert(m1.owners@ =~= m2.owners@);
    lemma_read_u64_at(b, q + 2, m1.transaction_count);
    lemma_read_u64_at(b, q + 2, m2.transaction_count);
    lemma_read_u64_at(b, q + 11, m1.paused_by.value);
    lemma_read_u64_at(b, q + 11, m2.paused_by.value);
    lemma_read_u64_at(b, q + 19, spec_i64_to_wire(m1.paused_at));
    lemma_read_u64_at(b, q + 19, spec_i64_to_wire(m2.paused_at));
    lemma_i64_wire_round_trip(m1.paused_at);
    lemma_i64_wire_round_trip(m2.paused_at);
    lemma_read_u64_at(b, q + 27, spec_i64_to_wire(m1.created_at));
    lemma_read_u64_at(b, q + 27, spec_i64_to_wire(m2.created_at));
    lemma_i64_wire_round_trip(m1.created_at);
    lemma_i64_wire_round_trip(m2.created_at);
    lemma_read_u64_at(b, q + 35, m1.nonce);
    lemma_read_u64_at(b, q + 35, m2.nonce);
    lemma_read_u64_at(b, q + 43, m1.last_proposal_slot);
    lemma_read_u64_at(b, q + 43, m2.last_proposal_slot);
}

/// The tag byte a transaction type is stored as.
pub open spec fn spec_type_tag(t: TransactionType) -> u8 {
    match t {
        TransactionType::Transfer => 0,
        TransactionType::TokenTransfer => 1,
        TransactionType::AdminAction => 2,
        TransactionType::ChangeThreshold => 3,
        TransactionType::AddOwner => 4,
        TransactionType::RemoveOwner => 5,
        TransactionType::Custom => 6,
    }
}

/// The transaction type a stored tag byte denotes.
pub open spec fn spec_type_of_tag(b: u8) -> Option<TransactionType> {
    if b == 0 {
        Some(TransactionType::Transfer)
    } else if b == 1 {
        Some(TransactionType::TokenTransfer)
    } else if b == 2 {
        Some(TransactionType::AdminAction)
    } else if b == 3 {
        Some(TransactionType::ChangeThreshold)
    } else if b == 4 {
        Some(TransactionType::AddOwner)
    } else if b == 5 {
        Some(TransactionType::RemoveOwner)
    } else if b == 6 {
        Some(TransactionType::Custom)
    } else {
        None
    }
}

/// Reading back a type's tag yields the type.
pub proof fn lemma_type_tag_round_trip(t: TransactionType)
    ensures
        spec_type_of_tag(spec_type_tag(t)) == Some(t),
{
}

/// Writes the tag byte of a transaction type.
fn type_tag(t: TransactionType) -> (r: u8)
    ensures
        r == spec_type_tag(t),
{
    match t {
        TransactionType::Transfer => 0,
        TransactionType::TokenTransfer => 1,
        TransactionType::AdminAction => 2,
        TransactionType::ChangeThreshold => 3,
        TransactionType::AddOwner => 4,
        TransactionType::RemoveOwner => 5,
        TransactionType::Custom => 6,
    }
}

/// Reads a tag byte back to its transaction type.
fn type_of_tag(b: u8) -> (r: Option<TransactionType>)
    ensures
        r == spec_type_of_tag(b),
{
    if b == 0 {
        Some(TransactionType::Transfer)
    } else if b == 1 {
        Some(TransactionType::TokenTransfer)
    } else if b == 2 {
        Some(TransactionType::AdminAction)
    } else if b == 3 {
        Some(TransactionType::ChangeThreshold)
    } else if b == 4 {
        Some(TransactionType::AddOwner)
    } else if b == 5 {
        Some(TransactionType::RemoveOwner)
    } else if b == 6 {
        Some(TransactionType::Custom)
    } else {
        None
    }
}

/// The byte encoding of a ballot: one byte per entry.
pub open spec fn spec_ser_bools(s: Seq<bool>) -> Seq<u8>
    decreases s.len(),
{
    if s.len() == 0 {
        Seq::empty()
    } else {
        spec_ser_bools(s.drop_last()) + seq![spec_bool_byte(s.last())]
    }
}

/// The ballot encoding takes one byte per entry, each the entry's byte.
pub proof fn lemma_ser_bools_index(s: Seq<bool>)
    ensures
        spec_ser_bools(s).len() == s.len(),
        forall|k: int| 0 <= k < s.len() ==> spec_ser_bools(s)[k] == spec_bool_byte(s[k]),
    decreases s.len(),
{
    if s.len() > 0 {
        lemma_ser_bools_index(s.drop_last());
        assert forall|k: int| 0 <= k < s.len() implies spec_ser_bools(s)[k] == spec_bool_byte(
            s[k],
        ) by {
            if k < s.len() - 1 {
                assert(spec_ser_bools(s)[k] == spec_ser_bools(s.drop_last())[k]);
                assert(s.drop_last()[k] == s[k]);
            }
        }
    }
}

/// Whether a record fits the serialized form: the ballot must fit the
/// count byte and the payload its two length bytes. Any record the engine
/// produces does.
pub open spec fn transaction_ser_ok(tx: Transaction) -> bool {
    &&& tx.approvals@.len() <= MAX_OWNERS
    &&& tx.instruction_data@.len() <= MAX_DATA_LEN
}

/// The byte encoding of a transaction record: the fixed-width fields, the
/// type tag, then the length-prefixed ballot and payload.
pub open spec fn spec_ser_transaction(tx: Transaction) -> Seq<u8> {
    spec_u64_le(tx.transaction_id) + spec_u64_le(spec_i64_to_wire(tx.created_at)) + spec_u64_le(
        spec_i64_to_wire(tx.expires_at),
    ) + seq![spec_bool_byte(tx.executed)] + spec_u64_le(tx.created_slot) + spec_u64_le(
        tx.multisig.value,
    ) + spec_u64_le(tx.proposer.value) + seq![spec_type_tag(tx.transaction_type)] + seq![
        tx.approvals@.len() as u8,
    ] + spec_ser_bools(tx.approvals@) + spec_u16_le(tx.instruction_data@.len() as u16)
        + tx.instruction_data@
}

/// The single-byte fields of a serialized transaction, and its length.
pub proof fn lemma_ser_transaction_frame(tx: Transaction)
    requires
        transaction_ser_ok(tx),
    ensures
        ({
            let b = spec_ser_transaction(tx);
            let n = tx.approvals@.len() as int;
            let d = tx.instruction_data@.len() as int;
            &&& b.len() == 53 + n + d
            &&& b[24] == spec_bool_byte(tx.executed)
            &&& b[49] == spec_type_tag(tx.transaction_type)
            &&& b[50] == tx.approvals@.len() as u8
            &&& b[51 + n] == spec_u16_le(tx.instruction_data@.len() as u16)[0]
            &&& b[52 + n] == spec_u16_le(tx.instruction_data@.len() as u16)[1]
        }),
{
    lemma_ser_bools_index(tx.approvals@);
}

/// The eight-byte fields of a serialized transaction.
pub proof fn lemma_ser_transaction_nums(tx: Transaction)
    requires
        transaction_ser_ok(tx),
    ensures
        ({
            let b = spec_ser_transaction(tx);
            &&& forall|i: int| 0 <= i < 8 ==> b[i] == spec_u64_le(tx.transaction_id)[i]
            &&& forall|i: int|
                0 <= i < 8 ==> b[8 + i] == spec_u64_le(spec_i64_to_wire(tx.created_at))[i]
            &&& forall|i: int|
                0 <= i < 8 ==> b[16 + i] == spec_u64_le(spec_i64_to_wire(tx.expires_at))[i]
            &&& forall|i: int| 0 <= i < 8 ==> b[25 + i] == spec_u64_le(tx.created_slot)[i]
            &&& forall|i: int| 0 <= i < 8 ==> b[33 + i] == spec_u64_le(tx.multisig.value)[i]
            &&& forall|i: int| 0 <= i < 8 ==> b[41 + i] == spec_u64_le(tx.proposer.value)[i]
        }),
{
    lemma_ser_bools_index(tx.approvals@);
}

/// The ballot and payload bytes of a serialized transaction.
pub proof fn lemma_ser_transaction_lists(tx: Transaction)
    requires
        transaction_ser_ok(tx),
    ensures
        ({
            let b = spec_ser_transaction(tx);
            let n = tx.approvals@.len() as int;
            let d = tx.instruction_data@.len() as int;
            &&& forall|k: int| 0 <= k < n ==> b[51 + k] == spec_bool_byte(tx.approvals@[k])
            &&& forall|k: int| 0 <= k < d ==> b[53 + n + k] == tx.instruction_data@[k]
        }),
{
    let b = spec_ser_transaction(tx);
    let n = tx.approvals@.len() as int;
    lemma_ser_bools_index(tx.approvals@);
    assert forall|k: int| 0 <= k < n implies b[51 + k] == spec_bool_byte(tx.approvals@[k]) by {
        assert(b[51 + k] == spec_ser_bools(tx.approvals@)[k]);
    }
}

/// Serializes a record to the form `deserialize_transaction` reads back.
pub fn serialize_transaction(tx: &Transaction) -> (r: Vec<u8>)
    requires
        transaction_ser_ok(*tx),
    ensures
        r@ == spec_ser_transaction(*tx),
{
    let mut out: Vec<u8> = Vec::new();
    push_u64_le(&mut out, tx.transaction_id);
    push_u64_le(&mut out, i64_to_wire(tx.created_at));
    push_u64_le(&mut out, i64_to_wire(tx.expires_at));
    out.push(if tx.executed {
        1
    } else {
        0
    });
    proof {
        assert(out@ =~= spec_u64_le(tx.transaction_id) + spec_u64_le(
            spec_i64_to_wire(tx.created_at),
        ) + spec_u64_le(spec_i64_to_wire(tx.expires_at)) + seq![spec_bool_byte(tx.executed)]);
    }
    push_u64_le(&mut out, tx.created_slot);
    push_u64_le(&mut out, tx.multisig.value);
    push_u64_le(&mut out, tx.proposer.value);
    out.push(type_tag(tx.transaction_type));
    let n = tx.approvals.len();
    out.push(n as u8);
    let ghost head = spec_u64_le(tx.transaction_id) + spec_u64_le(spec_i64_to_wire(tx.created_at))
        + spec_u64_le(spec_i64_to_wire(tx.expires_at)) + seq![spec_bool_byte(tx.executed)]
        + spec_u64_le(tx.created_slot) + spec_u64_le(tx.multisig.value) + spec_u64_le(
        tx.proposer.value,
    ) + seq![spec_type_tag(tx.transaction_type)] + seq![tx.approvals@.len() as u8];
    proof {
        assert(out@ =~= head);
    }
    let mut k: usize = 0;
    while k < n
        invariant
            n == tx.approvals@.len(),
            0 <= k <= n,
            out@ == head + spec_ser_bools(tx.approvals@.take(k as int)),
        decreases n - k,
    {
        out.push(if tx.approvals[k] {
            1
        } else {
            0
        });
        proof {
            let taken = tx.approvals@.take(k + 1);
            assert(taken.drop_last() =~= tx.approvals@.take(k as int));
            assert(taken.last() == tx.approvals@[k as int]);
            assert(out@ =~= head + spec_ser_bools(taken));
        }
        k += 1;
    }
    proof {
        assert(tx.approvals@.take(n as int) =~= tx.approvals@);
    }
    let d = tx.instruction_data.len();
    out.push((d & 0xff) as u8);
    out.push(((d >> 8) & 0xff) as u8);
    proof {
        assert((d & 0xff) as u8 == (((d as u16) & 0xff) as u8) && ((d >> 8) & 0xff) as u8 == ((((d
            as u16)) >> 8) & 0xff) as u8) by (bit_vector)
            requires
                d <= 1000,
        ;
        assert(out@ =~= head + spec_ser_bools(tx.approvals@) + spec_u16_le(
            tx.instruction_data@.len() as u16,
        ));
    }
    let ghost head2 = out@;
    let mut k: usize = 0;
    while k < d
        invariant
            d == tx.instruction_data@.len(),
            0 <= k <= d,
            out@ == head2 + tx.instruction_data@.take(k as int),
        decreases d - k,
    {
        out.push(tx.instruction_data[k]);
        proof {
            assert(out@ =~= head2 + tx.instruction_data@.take(k + 1));
        }
        k += 1;
    }
    proof {
        assert(tx.instruction_data@.take(d as int) =~= tx.instruction_data@);
        assert(out@ =~= spec_ser_transaction(*tx));
    }
    out
}

/// All persisted fields of two records agree.
pub open spec fn transaction_fields_eq(a: Transaction, b: Transaction) -> bool {
    &&& a.transaction_id == b.transaction_id
    &&& a.created_at == b.created_at
    &&& a.expires_at == b.expires_at
    &&& a.executed == b.executed
    &&& a.created_slot == b.created_slot
    &&& a.multisig == b.multisig
    &&& a.proposer == b.proposer
    &&& a.transaction_type == b.transaction_type
    &&& a.approvals@ == b.approvals@
    &&& a.instruction_data@ == b.instruction_data@
}


/// What the bytes of a serialized record reveal about it: every fixed
/// field read back at its offset, and the ballot and payload pointwise.
pub open spec fn spec_transaction_image_facts(bytes: Seq<u8>, tx: Transaction) -> bool {
    let n = tx.approvals@.len() as int;
    let d = tx.instruction_data@.len() as int;
    &&& bytes.len() == 53 + n + d
    &&& spec_read_u64(bytes, 0) == tx.transaction_id
    &&& spec_read_u64(bytes, 8) == spec_i64_to_wire(tx.created_at)
    &&& spec_read_u64(bytes, 16) == spec_i64_to_wire(tx.expires_at)
    &&& bytes[24] == spec_bool_byte(tx.executed)
    &&& spec_read_u64(bytes, 25) == tx.created_slot
    &&& spec_read_u64(bytes, 33) == tx.multisig.value
    &&& spec_read_u64(bytes, 41) == tx.proposer.value
    &&& spec_type_of_tag(bytes[49]) == Some(tx.transaction_type)
    &&& bytes[50] == n as u8
    &&& forall|k: int| 51 <= k < 51 + n ==> (#[trigger] bytes[k]) == spec_bool_byte(tx.approvals@[k - 51])
    &&& spec_u16_of_le(bytes.subrange(51 + n, 53 + n)) == d as u16
    &&& forall|k: int| 53 + n <= k < 53 + n + d ==> (#[trigger] bytes[k]) == tx.instruction_data@[k - 53 - n]
}

/// Any bytes equal to some record's serialization reveal that record's
/// fields as `spec_transaction_image_facts` says.
pub proof fn lemma_transaction_image_facts(bytes: Seq<u8>)
    ensures
        forall|tx: Transaction|
            transaction_ser_ok(tx) && bytes == #[trigger] spec_ser_transaction(tx)
                ==> spec_transaction_image_facts(bytes, tx),
{
    assert forall|tx: Transaction|
        transaction_ser_ok(tx) && bytes == #[trigger] spec_ser_transaction(
            tx,
        ) implies spec_transaction_image_facts(bytes, tx) by {
        let n = tx.approvals@.len() as int;
        let d = tx.instruction_data@.len() as int;
        lemma_ser_transaction_frame(tx);
        lemma_ser_transaction_nums(tx);
        lemma_ser_transaction_lists(tx);
        lemma_read_u64_at(bytes, 0, tx.transaction_id);
        lemma_read_u64_at(bytes, 8, spec_i64_to_wire(tx.created_at));
        lemma_read_u64_at(bytes, 16, spec_i64_to_wire(tx.expires_at));
        lemma_read_u64_at(bytes, 25, tx.created_slot);
        lemma_read_u64_at(bytes, 33, tx.multisig.value);
        lemma_read_u64_at(bytes, 41, tx.proposer.value);
        lemma_type_tag_round_trip(tx.transaction_type);
        assert(bytes.subrange(51 + n, 53 + n) =~= spec_u16_le(d as u16));
        lemma_u16_le_round_trip(d as u16);
        assert forall|k: int| 51 <= k < 51 + n implies (#[trigger] bytes[k]) == spec_bool_byte(
            tx.approvals@[k - 51],
        ) by {
            assert(bytes[51 + (k - 51)] == spec_bool_byte(tx.approvals@[k - 51]));
        }
        assert forall|k: int| 53 + n <= k < 53 + n + d implies (#[trigger] bytes[k])
            == tx.instruction_data@[k - 53 - n] by {
            assert(bytes[53 + n + (k - 53 - n)] == tx.instruction_data@[k - 53 - n]);
        }
    }
}

/// Reads a record back from bytes. Whatever `serialize_transaction`
/// produced parses back to a record with all fields preserved; bytes from
/// elsewhere may yield `None`.
#[verifier::loop_isolation(false)]
pub fn deserialize_transaction(bytes: &Vec<u8>) -> (r: Option<Transaction>)
    ensures
        forall|tx: Transaction|
            transaction_ser_ok(tx) && bytes@ == spec_ser_transaction(tx) ==> (r matches Some(tx2)
                && transaction_fields_eq(tx, tx2)),
{
    proof {
        lemma_transaction_image_facts(bytes@);
    }
    let total = bytes.len();
    if total < 53 {
        return None;
    }
    let transaction_id = read_u64_le(bytes, 0);
    let created_at = wire_to_i64(read_u64_le(bytes, 8));
    let expires_at = wire_to_i64(read_u64_le(bytes, 16));
    let executed_byte = bytes[24];
    if executed_byte > 1 {
        return None;
    }
    let executed = executed_byte == 1;
    let created_slot = read_u64_le(bytes, 25);
    let multisig = Pubkey { value: read_u64_le(bytes, 33) };
    let proposer = Pubkey { value: read_u64_le(bytes, 41) };
    let transaction_type = match type_of_tag(bytes[49]) {
        Some(t) => t,
        None => {
            return None;
        },
    };
    let n = bytes[50] as usize;
    if n > MAX_OWNERS {
        return None;
    }
    if total < 53 + n {
        return None;
    }
    let mut approvals: Vec<bool> = Vec::new();
    let mut k: usize = 0;
    while k < n
        invariant
            approvals@.len() == k,
            0 <= k <= n,
            forall|j: int| 0 <= j < k ==> spec_bool_byte(approvals@[j]) == bytes@[51 + j],
        decreases n - k,
    {
        let byte = bytes[51 + k];
        if byte > 1 {
            proof {
                assert forall|tx: Transaction|
                    transaction_ser_ok(tx) && bytes@ == spec_ser_transaction(tx) implies false by {
                    assert(bytes@[51 + k as int] == spec_bool_byte(tx.approvals@[k as int]));
                }
            }
            return None;
        }
        approvals.push(byte == 1);
        k += 1;
    }
    let dlen = ((bytes[51 + n] as u16) | ((bytes[52 + n] as u16) << 8)) as usize;
    proof {
        assert(bytes@.subrange(51 + n, 53 + n) =~= seq![bytes@[51 + n], bytes@[52 + n]]);
        assert(dlen == spec_u16_of_le(bytes@.subrange(51 + n, 53 + n)));
    }
    if total != 53 + n + dlen {
        proof {
            assert forall|tx: Transaction|
                transaction_ser_ok(tx) && bytes@ == spec_ser_transaction(tx) implies false by {
                assert(dlen == tx.instruction_data@.len());
            }
        }
        return None;
    }
    let mut instruction_data: Vec<u8> = Vec::new();
    let mut k: usize = 0;
    while k < dlen
        invariant
            instruction_data@.len() == k,
            0 <= k <= dlen,
            forall|j: int| 0 <= j < k ==> instruction_data@[j] == bytes@[53 + n + j],
        decreases dlen - k,
    {
        instruction_data.push(bytes[53 + n + k]);
        k += 1;
    }
    let result = Transaction {
        transaction_id,
        created_at,
        expires_at,
        executed,
        created_slot,
        multisig,
        proposer,
        transaction_type,
        approvals,
        instruction_data,
    };
    proof {
        assert forall|tx: Transaction|
            transaction_ser_ok(tx) && bytes@ == spec_ser_transaction(tx) implies transaction_fields_eq(
            tx,
            result,
        ) by {
            let an = tx.approvals@.len() as int;
            let ad = tx.instruction_data@.len() as int;
            lemma_i64_wire_round_trip(tx.created_at);
            lemma_i64_wire_round_trip(tx.expires_at);
            assert(n as int == an);
            assert(dlen as int == ad);
            assert forall|j: int| 0 <= j < an implies result.approvals@[j] == tx.approvals@[j] by {
                assert(bytes@[51 + j] == spec_bool_byte(tx.approvals@[j]));
                assert(spec_bool_byte(result.approvals@[j]) == bytes@[51 + j]);
            }
            assert(result.approvals@ =~= tx.approvals@);
            assert forall|j: int| 0 <= j < ad implies result.instruction_data@[j]
                == tx.instruction_data@[j] by {
                assert(bytes@[53 + n + j] == tx.instruction_data@[j]);
            }
            assert(result.instruction_data@ =~= tx.instruction_data@);
        }
    }
    Some(result)
}

/// Serialization is injective: equal stored forms mean equal records.
pub proof fn lemma_ser_transaction_injective(tx1: Transaction, tx2: Transaction)
    requires
        transaction_ser_ok(tx1),
        transaction_ser_ok(tx2),
        spec_ser_transaction(tx1) == spec_ser_transaction(tx2),
    ensures
        transaction_fields_eq(tx1, tx2),
{
    let b = spec_ser_transaction(tx1);
    lemma_transaction_image_facts(b);
    assert(spec_transaction_image_facts(b, tx1));
    assert(spec_transaction_image_facts(b, tx2));
    let n = tx1.approvals@.len() as int;
    assert(tx2.approvals@.len() as int == n);
    lemma_i64_wire_round_trip(tx1.created_at);
    lemma_i64_wire_round_trip(tx2.created_at);
    lemma_i64_wire_round_trip(tx1.expires_at);
    lemma_i64_wire_round_trip(tx2.expires_at);
    assert forall|k: int| 0 <= k < n implies tx1.approvals@[k] == tx2.approvals@[k] by {
        assert(b[51 + k] == spec_bool_byte(tx1.approvals@[k]));
        assert(b[51 + k] == spec_bool_byte(tx2.approvals@[k]));
    }
    assert(tx1.approvals@ =~= tx2.approvals@);
    let d = tx1.instruction_data@.len() as int;
    assert(tx2.instruction_data@.len() as int == d);
    assert forall|k: int| 0 <= k < d implies tx1.instruction_data@[k] == tx2.instruction_data@[k] by {
        assert(b[53 + n + k] == tx1.instruction_data@[k]);
        assert(b[53 + n + k] == tx2.instruction_data@[k]);
    }
    assert(tx1.instruction_data@ =~= tx2.instruction_data@);
}

} // verus!
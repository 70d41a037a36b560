//! The payload complexity heuristic: a deliberately crude static proxy for
//! how "dangerous" an instruction payload is, scored without interpreting
//! it. One point per ten bytes, plus ten points per full four-byte
//! little-endian chunk whose value exceeds one million (large numbers may
//! indicate loops or amounts).

use vstd::prelude::*;

verus! {

/// The little-endian value of the four bytes of `data` starting at `i`.
pub open spec fn le32_at(data: Seq<u8>, i: int) -> int {
    data[i] + 256 * data[i + 1] + 65536 * data[i + 2] + 16777216 * data[i + 3]
}

/// How many of the first `n` full four-byte chunks of `data` have a
/// little-endian value above one million.
pub open spec fn big_chunk_count(data: Seq<u8>, n: int) -> int
    decreases n,
{
    if n <= 0 {
        0
    } else {
        big_chunk_count(data, n - 1) + if le32_at(data, 4 * (n - 1)) > 1000000 {
            1int
        } else {
            0int
        }
    }
}

/// The complexity score of a payload: a tenth of its length plus ten per
/// big full chunk. A trailing partial chunk is not scored.
pub open spec fn spec_complexity(data: Seq<u8>) -> int {
    data.len() / 10 + 10 * big_chunk_count(data, data.len() as int / 4)
}

/// Scores a payload by `spec_complexity`. Payloads are at most
/// `MAX_DATA_LEN` bytes, which also keeps the score far below `u32::MAX`.
pub fn calculate_instruction_complexity(data: &Vec<u8>) -> (r: u32)
    requires
        data@.len() <= crate::state::MAX_DATA_LEN,
    ensures
        r == spec_complexity(data@),
{
    let len = data.len();
    let mut complexity: u32 = (len / 10) as u32;
    let chunks = len / 4;
    let mut k: usize = 0;
    while k < chunks
        invariant
            len == data@.len(),
            len <= 1000,
            chunks == len / 4,
            0 <= k <= chunks,
            complexity == len / 10 + 10 * big_chunk_count(data@, k as int),
            complexity <= len / 10 + 10 * k,
        decreases chunks - k,
    {
        assert(4 * k + 4 <= len);
        let b0 = data[4 * k] as u32;
        let b1 = data[4 * k + 1] as u32;
        let b2 = data[4 * k + 2] as u32;
        let b3 = data[4 * k + 3] as u32;
        let value = b0 + 256 * b1 + 65536 * b2 + 16777216 * b3;
        assert(value == le32_at(data@, 4 * k as int));
        if value > 1000000 {
            complexity += 10;
        }
        assert(big_chunk_count(data@, k + 1) == big_chunk_count(data@, k as int) + if le32_at(
            data@,
            4 * k as int,
        ) > 1000000 {
            1int
        } else {
            0int
        });
        k += 1;
    }
    complexity
}

} // verus!

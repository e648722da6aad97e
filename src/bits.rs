//! Sign extension of bit fields held in 64-bit words.
use vstd::prelude::*;

verus! {

/// Bit `idx` and every bit above it set, all others clear.
pub open spec fn high_mask(idx: u64) -> u64 {
    u64::MAX << idx
}

/// `val` with every bit above `idx` replaced by bit `idx` of `val`.
pub open spec fn sign_extend(val: u64, idx: u64) -> u64 {
    if (val >> idx) & 1 == 1 {
        val | high_mask(idx)
    } else {
        val & !high_mask(idx)
    }
}

/// Bit `j` of `v`.
pub open spec fn bit_of(v: u64, j: u64) -> bool {
    (v >> j) & 1 == 1
}

/// Replicates bit `sign_bit_idx` of `val` into every higher bit position.
pub fn sign_extend_64(val: u64, sign_bit_idx: u8) -> (r: u64)
    requires
        sign_bit_idx < 64,
    ensures
        r == sign_extend(val, sign_bit_idx as u64),
{
    let idx = sign_bit_idx as u64;
    let bit = (val >> idx) & 0x1;
    let mask = u64::MAX << idx;
    if bit == 1 {
        val | mask
    } else {
        val & !mask
    }
}

/// Sign extension copies the sign bit into every higher position and keeps
/// every bit at or below it.
pub proof fn lemma_sign_extend_bits(val: u64, idx: u64, j: u64)
    requires
        idx < 64,
        j < 64,
    ensures
        j > idx ==> (bit_of(sign_extend(val, idx), j) == bit_of(val, idx)),
        j <= idx ==> (bit_of(sign_extend(val, idx), j) == bit_of(val, j)),
{
    assert(j > idx ==> (bit_of(sign_extend(val, idx), j) == bit_of(val, idx))) by (bit_vector)
        requires
            idx < 64,
            j < 64,
    ;
    assert(j <= idx ==> (bit_of(sign_extend(val, idx), j) == bit_of(val, j))) by (bit_vector)
        requires
            idx < 64,
            j < 64,
    ;
}

} // verus!

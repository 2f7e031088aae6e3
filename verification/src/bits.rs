//! Bit reversal of 64-bit words.
//!
//! Reflected CRC variants process bits least-significant-first, so every
//! constant derived by natural polynomial division must have its bit order
//! reversed before a reflected engine can use it. This module holds that
//! shared primitive and its algebra: reversal is an involution, and the bit
//! at position `i` of the result is the input's bit at position `63 - i`.

use vstd::prelude::*;

verus! {

/// The bit of `x` at position `i`, as 0 or 1.
pub open spec fn bit64(x: u64, i: u64) -> u64
    recommends
        i < 64,
{
    (x >> i) & 1
}

/// The low `k` bits of `x` in reversed order: the word built by taking
/// bits `0, 1, ..., k-1` of `x` and appending each at the bottom, so that
/// bit `0` of `x` ends up highest among the `k` produced bits.
pub open spec fn rev_prefix(x: u64, k: int) -> u64
    decreases k,
{
    if k <= 0 {
        0u64
    } else {
        (rev_prefix(x, k - 1) << 1u64) | ((x >> ((k - 1) as u64)) & 1)
    }
}

/// The full bit reversal of a 64-bit word.
pub open spec fn rev64(x: u64) -> u64 {
    rev_prefix(x, 64)
}

/// Bit `i` of the reversal is bit `63 - i` of the original word.
pub proof fn lemma_rev64_bits(x: u64, i: u64)
    requires
        i < 64,
    ensures
        bit64(rev64(x), i) == bit64(x, (63 - i) as u64),
{
    assert((rev_prefix(x, 64) >> i) & 1 == (x >> ((63 - i) as u64)) & 1) by (bit_vector)
        requires
            i < 64,
    ;
}

/// Reversing a word twice gives the word back.
pub proof fn lemma_rev64_involution(x: u64)
    ensures
        rev64(rev64(x)) == x,
{
    assert(rev_prefix(rev_prefix(x, 64), 64) == x) by (bit_vector);
}

/// Reverses the bit order of a 64-bit word: the result's bit at position
/// `i` is the input's bit at position `63 - i`, for every `i` below 64.
pub fn bit_reverse(forward: u64) -> (reversed: u64)
    ensures
        reversed == rev64(forward),
        forall|i: u64| i < 64 ==> bit64(reversed, i) == bit64(forward, (63 - i) as u64),
{
    let mut remaining = forward;
    let mut reversed: u64 = 0;

    proof {
        assert(forward >> 0u64 == forward) by (bit_vector);
    }

    for k in 0..64u64
        invariant
            reversed == rev_prefix(forward, k as int),
            k < 64 ==> remaining == forward >> k,
    {
        reversed <<= 1;
        reversed |= remaining & 1;
        proof {
            assert(k < 63 ==> (forward >> k) >> 1u64 == forward >> ((k + 1) as u64)) by (bit_vector);
        }
        remaining >>= 1;
    }

    proof {
        assert forall|i: u64| i < 64 implies bit64(reversed, i) == bit64(
            forward,
            (63 - i) as u64,
        ) by {
            lemma_rev64_bits(forward, i);
        }
    }
    reversed
}

} // verus!

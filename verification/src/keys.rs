//! Derivation of per-stride fold keys.
//!
//! A fold key is the reduction of `x^exponent` modulo the generator
//! polynomial, bit-reversed for the reflected convention. It lets a
//! carryless-multiplication engine combine a partial checksum computed
//! `exponent` bits earlier in a stream with state computed later, so that
//! independent stripes of a buffer can be checksummed in parallel.

use vstd::prelude::*;
use crate::bits::{bit_reverse, rev64};

verus! {

/// The residue of `x^(64 + k)` modulo the generator, held in a 64-bit word
/// with bit 63 as the leading coefficient. Starting from `x^64`
/// (represented by the top bit alone), each step multiplies by `x` — a left
/// shift — and, when the shifted-out coefficient was set, reduces by XORing
/// the generator back in.
pub open spec fn key_residue(polynomial: u64, k: int) -> u64
    decreases k,
{
    if k <= 0 {
        0x8000000000000000u64
    } else {
        let n = key_residue(polynomial, k - 1);
        (n << 1u64) ^ (if n >> 63u64 != 0 {
            polynomial
        } else {
            0u64
        })
    }
}

/// The fold key for an exponent: zero for exponents of 64 or below (no
/// fold is needed at that distance), otherwise the bit-reversed residue of
/// `x^exponent` modulo the generator.
pub open spec fn fold_key(exponent: u64, polynomial: u64) -> u64 {
    if exponent <= 64 {
        0u64
    } else {
        rev64(key_residue(polynomial, exponent - 64))
    }
}

/// Derives the fold key for `x^exponent` modulo the generator polynomial.
/// Exponents of 64 or below are a defined degenerate case and yield zero
/// with no simulation performed; larger exponents run `exponent - 64`
/// modular multiply-by-`x` steps and bit-reverse the final residue.
pub fn generate_key(exponent: u64, polynomial: u64) -> (key: u64)
    ensures
        key == fold_key(exponent, polynomial),
        exponent <= 64 ==> key == 0,
{
    if exponent <= 64 {
        return 0;
    }

    let mut n: u64 = 0x8000000000000000;
    let steps = exponent - 64;
    let mut k: u64 = 0;
    while k < steps
        invariant
            k <= steps,
            n == key_residue(polynomial, k as int),
        decreases steps - k,
    {
        n = (n << 1) ^ (if n >> 63 != 0 {
            polynomial
        } else {
            0
        });
        k += 1;
    }

    bit_reverse(n)
}

} // verus!

//! Derivation of the Barrett multiplicative constant `mu`.
//!
//! Barrett reduction replaces division by the generator polynomial with a
//! multiplication by a precomputed reciprocal-like constant followed by a
//! correction step. The constant is obtained by simulating exactly 64 steps
//! of binary polynomial long division of `x^64` by the generator, then
//! reversing the bit order of the accumulated quotient for the reflected
//! CRC convention.

use vstd::prelude::*;
use crate::bits::{bit_reverse, rev64};

verus! {

/// The division state after `k` of the 64 steps: the one-bit high part of
/// the numerator, its 64-bit low part, and the quotient accumulated so far.
/// Each step shifts the quotient up, and when the high bit is set records a
/// quotient bit and subtracts (XORs) the generator from the low part; the
/// numerator then shifts up by one, its top bit becoming the new high part.
pub open spec fn mu_div_state(polynomial: u64, k: int) -> (u64, u64, u64)
    decreases k,
{
    if k <= 0 {
        (1u64, 0u64, 0u64)
    } else {
        let (high, low, quotient) = mu_div_state(polynomial, k - 1);
        if high != 0 {
            ((low ^ polynomial) >> 63u64, (low ^ polynomial) << 1u64, (quotient << 1u64) | 1)
        } else {
            (low >> 63u64, low << 1u64, quotient << 1u64)
        }
    }
}

/// The quotient of the full 64-step division of `x^64` by the generator.
pub open spec fn mu_quotient(polynomial: u64) -> u64 {
    mu_div_state(polynomial, 64).2
}

/// The Barrett constant: the division quotient, bit-reversed for the
/// reflected convention.
pub open spec fn barrett_mu(polynomial: u64) -> u64 {
    rev64(mu_quotient(polynomial))
}

/// Derives the Barrett multiplicative constant `mu` for the given generator
/// polynomial: exactly 64 long-division steps, independent of the value,
/// followed by a bit reversal. Total over the full 64-bit input domain.
pub fn generate_mu(polynomial: u64) -> (mu: u64)
    ensures
        mu == barrett_mu(polynomial),
{
    let mut numerator_high: u64 = 1;
    let mut numerator_low: u64 = 0;
    let mut quotient: u64 = 0;

    for k in 0..64u64
        invariant
            (numerator_high, numerator_low, quotient) == mu_div_state(polynomial, k as int),
    {
        quotient <<= 1;

        if numerator_high != 0 {
            quotient |= 1;
            numerator_low ^= polynomial;
        }
        numerator_high = numerator_low >> 63;
        numerator_low <<= 1;
    }

    bit_reverse(quotient)
}

} // verus!

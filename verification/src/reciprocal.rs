//! Derivation of the reciprocal polynomial.
//!
//! Certain hardware reduction instruction sequences want the generator in
//! its reciprocal form: the bit-reversed polynomial shifted up by one with
//! the constant coefficient set. A pure transform of the bit reversal, with
//! no iteration and no error conditions.

use vstd::prelude::*;
use crate::bits::{bit_reverse, rev64};

verus! {

/// The reciprocal form of a generator polynomial: its bit reversal shifted
/// left once, with the low bit set.
pub open spec fn reciprocal_poly(polynomial: u64) -> u64 {
    (rev64(polynomial) << 1u64) | 1
}

/// Derives the reciprocal polynomial representation of the generator.
pub fn generate_reciprocal_polynomial(polynomial: u64) -> (reciprocal: u64)
    ensures
        reciprocal == reciprocal_poly(polynomial),
{
    (bit_reverse(polynomial) << 1) | 1
}

} // verus!

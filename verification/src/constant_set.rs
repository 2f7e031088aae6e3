//! The full constant set for one generator polynomial.
//!
//! A consuming CRC engine needs one fold key per stride it folds at, plus
//! the Barrett constant and the reciprocal polynomial. The strides are a
//! fixed contract with that engine's fold-width choices — sixteen exponents
//! from 128 to 1088 in steps of 64, kept verbatim here rather than derived —
//! and the set is produced in one deterministic pass, each sub-computation
//! total and independent of the others.

use vstd::prelude::*;
use crate::barrett::{barrett_mu, generate_mu};
use crate::keys::{fold_key, generate_key};
use crate::reciprocal::{generate_reciprocal_polynomial, reciprocal_poly};

verus! {

/// The fixed ordered list of exponents whose fold keys a consuming engine
/// expects, in ascending order.
pub open spec fn key_exponents() -> Seq<u64> {
    seq![
        128u64,
        192u64,
        256u64,
        320u64,
        384u64,
        448u64,
        512u64,
        576u64,
        640u64,
        704u64,
        768u64,
        832u64,
        896u64,
        960u64,
        1024u64,
        1088u64,
    ]
}

/// The derived constants for one generator polynomial: one `(exponent,
/// fold key)` pair per entry of the fixed exponent list, in that order,
/// plus the Barrett constant and the reciprocal polynomial. Immutable once
/// produced.
pub struct ConstantSet {
    /// The `(exponent, fold key)` pairs, in the fixed exponent order.
    pub keys: Vec<(u64, u64)>,
    /// The Barrett multiplicative constant.
    pub mu: u64,
    /// The reciprocal polynomial.
    pub reciprocal: u64,
}

impl ConstantSet {
    /// The set holds exactly the constants that the given generator
    /// polynomial derives to: every pair carries an exponent of the fixed
    /// list with its fold key, and `mu` and `reciprocal` are the Barrett
    /// and reciprocal derivations of the polynomial.
    pub open spec fn is_for(self, polynomial: u64) -> bool {
        &&& self.keys@.len() == key_exponents().len()
        &&& forall|i: int|
            0 <= i < key_exponents().len() ==> #[trigger] self.keys@[i] == (
            key_exponents()[i],
            fold_key(key_exponents()[i], polynomial),
            )
        &&& self.mu == barrett_mu(polynomial)
        &&& self.reciprocal == reciprocal_poly(polynomial)
    }
}

/// Generation is deterministic: any two constant sets derived for the same
/// polynomial agree in every field. There is no hidden state and no
/// dependence on time or randomness — each constant is a function of the
/// polynomial alone, so repeated derivation always yields identical output.
pub proof fn lemma_generation_deterministic(a: ConstantSet, b: ConstantSet, polynomial: u64)
    requires
        a.is_for(polynomial),
        b.is_for(polynomial),
    ensures
        a.keys@ == b.keys@,
        a.mu == b.mu,
        a.reciprocal == b.reciprocal,
{
    assert(a.keys@ =~= b.keys@);
}

/// Derives the complete constant set for a generator polynomial: the fold
/// key for each exponent of the fixed list, in order, then the Barrett
/// constant and the reciprocal polynomial.
pub fn generate_constant_set(polynomial: u64) -> (set: ConstantSet)
    ensures
        set.is_for(polynomial),
{
    let exponents: [u64; 16] = [
        128,
        192,
        256,
        320,
        384,
        448,
        512,
        576,
        640,
        704,
        768,
        832,
        896,
        960,
        1024,
        1088,
    ];
    proof {
        assert(exponents@ =~= key_exponents());
    }

    let mut keys: Vec<(u64, u64)> = Vec::new();
    for i in 0..16usize
        invariant
            exponents@ =~= key_exponents(),
            keys@.len() == i,
            forall|j: int|
                0 <= j < i ==> #[trigger] keys@[j] == (
                key_exponents()[j],
                fold_key(key_exponents()[j], polynomial),
                ),
    {
        let exponent = exponents[i];
        keys.push((exponent, generate_key(exponent, polynomial)));
    }

    ConstantSet {
        keys,
        mu: generate_mu(polynomial),
        reciprocal: generate_reciprocal_polynomial(polynomial),
    }
}

} // verus!

//! Constant generation for carryless-multiplication CRC-64 engines.
//!
//! Given a CRC-64 generator polynomial in the bit-reflected convention, this
//! library derives the fixed constants a Barrett-reduction CRC engine needs:
//! per-stride fold keys (reductions of `x^e` modulo the polynomial), the
//! Barrett multiplicative constant `mu`, and the reciprocal polynomial.
//! All arithmetic is carry-free GF(2) work over 64-bit words.

pub mod barrett;
pub mod bits;
pub mod constant_set;
pub mod keys;
pub mod parse;
pub mod reciprocal;
pub mod render;

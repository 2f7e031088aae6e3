//! Rendering the constant set as output lines.
//!
//! One line per value, in a fixed order: `k_<exponent> = 0x<hex>` for each
//! of the sixteen exponents in ascending order, then `mu = 0x<hex>`, then
//! `reciprocal = 0x<hex>`. Hex values are lowercase and unpadded — no fixed
//! width, no leading zeros beyond what the value requires. Lines are built
//! as ASCII bytes; printing them is left to the caller.

use vstd::prelude::*;
use crate::barrett::barrett_mu;
use crate::constant_set::{ConstantSet, generate_constant_set, key_exponents};
use crate::keys::fold_key;
use crate::reciprocal::reciprocal_poly;

verus! {

/// The ASCII digit for a value below 16: `0`–`9`, then lowercase `a`–`f`.
pub open spec fn digit_ascii(d: u64) -> u8
    recommends
        d < 16,
{
    if d < 10 {
        (48 + d) as u8
    } else {
        (87 + d) as u8
    }
}

/// The unpadded lowercase hexadecimal digits of a value, most significant
/// first. Zero renders as the single digit `0`.
pub open spec fn hex_repr(v: u64) -> Seq<u8>
    decreases v,
{
    if v < 16 {
        seq![digit_ascii(v)]
    } else {
        hex_repr(v / 16).push(digit_ascii(v % 16))
    }
}

/// The unpadded decimal digits of a value, most significant first.
pub open spec fn dec_repr(v: u64) -> Seq<u8>
    decreases v,
{
    if v < 10 {
        seq![digit_ascii(v)]
    } else {
        dec_repr(v / 10).push(digit_ascii(v % 10))
    }
}

/// The line announcing one fold key: `k_<exponent> = 0x<key>`.
pub open spec fn key_line(exponent: u64, key: u64) -> Seq<u8> {
    seq![107u8, 95u8] + dec_repr(exponent) + seq![32u8, 61u8, 32u8, 48u8, 120u8] + hex_repr(key)
}

/// The line announcing the Barrett constant: `mu = 0x<mu>`.
pub open spec fn mu_line(mu: u64) -> Seq<u8> {
    seq![109u8, 117u8, 32u8, 61u8, 32u8, 48u8, 120u8] + hex_repr(mu)
}

/// The line announcing the reciprocal polynomial: `reciprocal = 0x<r>`.
pub open spec fn reciprocal_line(reciprocal: u64) -> Seq<u8> {
    seq![114u8, 101u8, 99u8, 105u8, 112u8, 114u8, 111u8, 99u8, 97u8, 108u8, 32u8, 61u8, 32u8, 48u8, 120u8]
        + hex_repr(reciprocal)
}

/// Everything the tool prints for one polynomial: a key line per exponent
/// of the fixed list, in ascending order, then the mu line, then the
/// reciprocal line — eighteen lines in all.
pub open spec fn constant_output(polynomial: u64) -> Seq<Seq<u8>> {
    Seq::new(
        key_exponents().len(),
        |i: int| key_line(key_exponents()[i], fold_key(key_exponents()[i], polynomial)),
    ).push(mu_line(barrett_mu(polynomial))).push(reciprocal_line(reciprocal_poly(polynomial)))
}

/// Appends the unpadded lowercase hexadecimal digits of `v`.
fn push_hex(v: u64, out: &mut Vec<u8>)
    ensures
        final(out)@ == old(out)@ + hex_repr(v),
    decreases v,
{
    if v < 16 {
        out.push(digit(v));
    } else {
        push_hex(v / 16, out);
        out.push(digit(v % 16));
    }
}

/// Appends the unpadded decimal digits of `v`.
fn push_dec(v: u64, out: &mut Vec<u8>)
    ensures
        final(out)@ == old(out)@ + dec_repr(v),
    decreases v,
{
    if v < 10 {
        out.push(digit(v));
    } else {
        push_dec(v / 10, out);
        out.push(digit(v % 10));
    }
}

/// The ASCII digit for a value below 16.
fn digit(d: u64) -> (b: u8)
    requires
        d < 16,
    ensures
        b == digit_ascii(d),
{
    if d < 10 {
        48 + (d as u8)
    } else {
        87 + (d as u8)
    }
}

/// Appends ` = 0x`, the separator between a label and its value.
fn push_equals_hex_marker(out: &mut Vec<u8>)
    ensures
        final(out)@ == old(out)@ + seq![32u8, 61u8, 32u8, 48u8, 120u8],
{
    out.push(32u8);
    out.push(61u8);
    out.push(32u8);
    out.push(48u8);
    out.push(120u8);
    proof {
        assert(out@ =~= old(out)@ + seq![32u8, 61u8, 32u8, 48u8, 120u8]);
    }
}

/// Renders one fold-key line, `k_<exponent> = 0x<key>`.
pub fn render_key_line(exponent: u64, key: u64) -> (line: Vec<u8>)
    ensures
        line@ == key_line(exponent, key),
{
    let mut line: Vec<u8> = Vec::new();
    line.push(107u8);
    line.push(95u8);
    proof {
        assert(line@ =~= seq![107u8, 95u8]);
    }
    push_dec(exponent, &mut line);
    push_equals_hex_marker(&mut line);
    push_hex(key, &mut line);
    proof {
        assert(line@ =~= key_line(exponent, key));
    }
    line
}

/// Renders the Barrett-constant line, `mu = 0x<mu>`.
pub fn render_mu_line(mu: u64) -> (line: Vec<u8>)
    ensures
        line@ == mu_line(mu),
{
    let mut line: Vec<u8> = Vec::new();
    line.push(109u8);
    line.push(117u8);
    proof {
        assert(line@ =~= seq![109u8, 117u8]);
    }
    push_equals_hex_marker(&mut line);
    push_hex(mu, &mut line);
    proof {
        assert(line@ =~= mu_line(mu));
    }
    line
}

/// Renders the reciprocal-polynomial line, `reciprocal = 0x<r>`.
pub fn render_reciprocal_line(reciprocal: u64) -> (line: Vec<u8>)
    ensures
        line@ == reciprocal_line(reciprocal),
{
    let mut line: Vec<u8> = Vec::new();
    line.push(114u8);
    line.push(101u8);
    line.push(99u8);
    line.push(105u8);
    line.push(112u8);
    line.push(114u8);
    line.push(111u8);
    line.push(99u8);
    line.push(97u8);
    line.push(108u8);
    proof {
        assert(line@ =~= seq![114u8, 101u8, 99u8, 105u8, 112u8, 114u8, 111u8, 99u8, 97u8, 108u8]);
    }
    push_equals_hex_marker(&mut line);
    push_hex(reciprocal, &mut line);
    proof {
        assert(line@ =~= reciprocal_line(reciprocal));
    }
    line
}

/// Renders a constant set as its output lines: one key line per pair, in
/// the set's order, then the mu line, then the reciprocal line.
pub fn render_constant_set(set: &ConstantSet) -> (lines: Vec<Vec<u8>>)
    ensures
        lines@.len() == set.keys@.len() + 2,
        forall|i: int|
            0 <= i < set.keys@.len() ==> #[trigger] lines@[i]@ == key_line(
                set.keys@[i].0,
                set.keys@[i].1,
            ),
        lines@[set.keys@.len() as int]@ == mu_line(set.mu),
        lines@[set.keys@.len() as int + 1]@ == reciprocal_line(set.reciprocal),
{
    let mut lines: Vec<Vec<u8>> = Vec::new();
    let n = set.keys.len();
    for i in 0..n
        invariant
            n == set.keys@.len(),
            lines@.len() == i,
            forall|j: int|
                0 <= j < i ==> #[trigger] lines@[j]@ == key_line(
                    set.keys@[j].0,
                    set.keys@[j].1,
                ),
    {
        let (exponent, key) = set.keys[i];
        lines.push(render_key_line(exponent, key));
    }
    lines.push(render_mu_line(set.mu));
    lines.push(render_reciprocal_line(set.reciprocal));
    lines
}

/// Derives the constant set for a polynomial and renders it: exactly the
/// eighteen canonical output lines for that polynomial, in order.
pub fn generate_report(polynomial: u64) -> (lines: Vec<Vec<u8>>)
    ensures
        lines@.map_values(|line: Vec<u8>| line@) == constant_output(polynomial),
        lines@.len() == 18,
{
    let set = generate_constant_set(polynomial);
    let lines = render_constant_set(&set);
    proof {
        assert(lines@.map_values(|line: Vec<u8>| line@) =~~= constant_output(polynomial));
    }
    lines
}

} // verus!

//! Parsing a generator polynomial from hexadecimal text.
//!
//! The one input this tool takes is a polynomial written in hexadecimal,
//! optionally prefixed with `0x` or `0X`. Anything else — an empty digit
//! string, a non-hex character, a value past 64 bits — is rejected, and
//! rejection is the tool's only error condition.

use vstd::prelude::*;

verus! {

/// Whether the byte is an ASCII hexadecimal digit.
pub open spec fn is_hex_digit(b: u8) -> bool {
    (48 <= b <= 57) || (97 <= b <= 102) || (65 <= b <= 70)
}

/// The numeric value of an ASCII hexadecimal digit.
pub open spec fn hex_digit_value(b: u8) -> u64
    recommends
        is_hex_digit(b),
{
    if 48 <= b <= 57 {
        (b - 48) as u64
    } else if 97 <= b <= 102 {
        (b - 87) as u64
    } else {
        (b - 55) as u64
    }
}

/// The value of a string of hexadecimal digits, most significant first:
/// `None` on any non-digit byte or once the value no longer fits in 64
/// bits; the empty string reads as zero.
pub open spec fn hex_value(s: Seq<u8>) -> Option<u64>
    decreases s.len(),
{
    if s.len() == 0 {
        Some(0u64)
    } else {
        match hex_value(s.drop_last()) {
            Option::None => Option::None,
            Option::Some(v) => {
                if !is_hex_digit(s.last()) {
                    Option::None
                } else if v > 0x0fff_ffff_ffff_ffffu64 {
                    Option::None
                } else {
                    Option::Some((v * 16 + hex_digit_value(s.last())) as u64)
                }
            },
        }
    }
}

/// The polynomial an argument string denotes: its digits after an optional
/// `0x`/`0X` prefix, read as hexadecimal; `None` when no digits remain or
/// `hex_value` rejects them.
pub open spec fn parsed_polynomial(s: Seq<u8>) -> Option<u64> {
    let digits = if s.len() >= 2 && s[0] == 48 && (s[1] == 120 || s[1] == 88) {
        s.skip(2)
    } else {
        s
    };
    if digits.len() == 0 {
        Option::None
    } else {
        hex_value(digits)
    }
}

/// A rejected digit string stays rejected however far it is extended.
proof fn lemma_hex_value_none_extends(s: Seq<u8>, i: int, j: int)
    requires
        0 <= i <= j <= s.len(),
        hex_value(s.take(i)) is None,
    ensures
        hex_value(s.take(j)) is None,
    decreases j - i,
{
    if i < j {
        assert(s.take(i + 1).drop_last() =~= s.take(i));
        lemma_hex_value_none_extends(s, i + 1, j);
    }
}

/// Reads a string of hexadecimal digits as an unsigned 64-bit value, most
/// significant digit first. Returns `None` exactly when some byte is not a
/// hexadecimal digit or the value exceeds 64 bits; the empty string reads
/// as zero.
pub fn parse_hex_digits(s: &[u8]) -> (value: Option<u64>)
    ensures
        value == hex_value(s@),
{
    let mut acc: u64 = 0;
    let n = s.len();
    for i in 0..n
        invariant
            n == s@.len(),
            hex_value(s@.take(i as int)) == Some(acc),
    {
        let b = s[i];
        proof {
            assert(s@.take(i + 1).drop_last() =~= s@.take(i as int));
            assert(s@.take(i + 1).last() == s@[i as int]);
        }
        let digit: u64 = if 48 <= b && b <= 57 {
            (b - 48) as u64
        } else if 97 <= b && b <= 102 {
            (b - 87) as u64
        } else if 65 <= b && b <= 70 {
            (b - 55) as u64
        } else {
            proof {
                lemma_hex_value_none_extends(s@, i + 1, n as int);
                assert(s@.take(n as int) =~= s@);
            }
            return None;
        };
        if acc > 0x0fff_ffff_ffff_ffff {
            proof {
                lemma_hex_value_none_extends(s@, i + 1, n as int);
                assert(s@.take(n as int) =~= s@);
            }
            return None;
        }
        acc = acc * 16 + digit;
    }
    proof {
        assert(s@.take(n as int) =~= s@);
    }
    Some(acc)
}

/// Parses the polynomial argument: strips one optional `0x`/`0X` prefix,
/// then reads the remaining bytes as hexadecimal digits. Returns `None`
/// exactly when no digits remain after the prefix, a byte is not a
/// hexadecimal digit, or the value exceeds 64 bits.
pub fn parse_polynomial(s: &[u8]) -> (polynomial: Option<u64>)
    ensures
        polynomial == parsed_polynomial(s@),
{
    let digits: &[u8] = if s.len() >= 2 && s[0] == 48 && (s[1] == 120 || s[1] == 88) {
        let rest = vstd::slice::slice_subrange(s, 2, s.len());
        proof {
            assert(rest@ =~= s@.skip(2));
        }
        rest
    } else {
        s
    };
    if digits.len() == 0 {
        return None;
    }
    parse_hex_digits(digits)
}

} // verus!

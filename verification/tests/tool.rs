use crc64_consts::barrett::generate_mu;
use crc64_consts::bits::bit_reverse;
use crc64_consts::constant_set::generate_constant_set;
use crc64_consts::keys::generate_key;
use crc64_consts::parse::{parse_hex_digits, parse_polynomial};
use crc64_consts::reciprocal::generate_reciprocal_polynomial;
use crc64_consts::render::{generate_report, render_key_line};

const NVME_POLY: u64 = 0xAD93D23594C93659;
const ECMA_POLY: u64 = 0x42F0E1EBA9EA3693;

#[test]
fn double_reversal_returns_the_original() {
    for value in [0u64, 1, u64::MAX, NVME_POLY, ECMA_POLY, 0xdeadbeef] {
        assert_eq!(bit_reverse(bit_reverse(value)), value);
    }
}

#[test]
fn key_is_zero_for_small_exponents() {
    for exponent in [0u64, 1, 32, 63, 64] {
        assert_eq!(generate_key(exponent, NVME_POLY), 0);
        assert_eq!(generate_key(exponent, ECMA_POLY), 0);
        assert_eq!(generate_key(exponent, 0), 0);
    }
    assert_ne!(generate_key(65, NVME_POLY), 0);
}

#[test]
fn repeated_generation_is_identical() {
    assert_eq!(generate_mu(NVME_POLY), generate_mu(NVME_POLY));
    assert_eq!(generate_key(128, ECMA_POLY), generate_key(128, ECMA_POLY));
    assert_eq!(
        generate_reciprocal_polynomial(NVME_POLY),
        generate_reciprocal_polynomial(NVME_POLY)
    );
}

#[test]
fn constant_set_holds_every_derived_value() {
    let set = generate_constant_set(NVME_POLY);
    assert_eq!(set.keys.len(), 16);
    for (i, (exponent, key)) in set.keys.iter().enumerate() {
        assert_eq!(*exponent, 128 + 64 * i as u64);
        assert_eq!(*key, generate_key(*exponent, NVME_POLY));
    }
    assert_eq!(set.mu, generate_mu(NVME_POLY));
    assert_eq!(set.reciprocal, generate_reciprocal_polynomial(NVME_POLY));
}

#[test]
fn report_is_eighteen_labeled_lines_in_order() {
    let lines: Vec<String> = generate_report(NVME_POLY)
        .into_iter()
        .map(|line| String::from_utf8(line).unwrap())
        .collect();
    assert_eq!(lines.len(), 18);
    for (i, line) in lines.iter().take(16).enumerate() {
        let exponent = 128 + 64 * i as u64;
        let expected = format!("k_{} = 0x{:x}", exponent, generate_key(exponent, NVME_POLY));
        assert_eq!(*line, expected);
    }
    assert_eq!(lines[0], "k_128 = 0x21e9761e252621ac");
    assert_eq!(lines[15], "k_1088 = 0xa1ca681e733f9c40");
    assert_eq!(lines[16], "mu = 0x27ecfa329aef9f77");
    assert_eq!(lines[17], "reciprocal = 0x34d926535897936b");
}

#[test]
fn hex_rendering_is_lowercase_and_unpadded() {
    // 0x0c32... must lose its leading zero; a zero key renders as the digit 0.
    assert_eq!(
        render_key_line(576, 0x0c32_cdb3_1e18_a84a),
        b"k_576 = 0xc32cdb31e18a84a".to_vec()
    );
    assert_eq!(render_key_line(128, 0), b"k_128 = 0x0".to_vec());
}

#[test]
fn parses_hex_with_and_without_prefix() {
    assert_eq!(parse_polynomial(b"0xAD93D23594C93659"), Some(NVME_POLY));
    assert_eq!(parse_polynomial(b"0XAD93D23594C93659"), Some(NVME_POLY));
    assert_eq!(parse_polynomial(b"ad93d23594c93659"), Some(NVME_POLY));
    assert_eq!(parse_polynomial(b"0"), Some(0));
    assert_eq!(parse_polynomial(b"ffffffffffffffff"), Some(u64::MAX));
}

#[test]
fn rejects_text_that_is_not_a_polynomial() {
    assert_eq!(parse_polynomial(b"xyz"), None);
    assert_eq!(parse_polynomial(b""), None);
    assert_eq!(parse_polynomial(b"0x"), None);
    assert_eq!(parse_polynomial(b"12g4"), None);
    assert_eq!(parse_polynomial(b"0x12 34"), None);
    // One digit past the 64-bit range.
    assert_eq!(parse_polynomial(b"10000000000000000"), None);
    assert_eq!(parse_hex_digits(b"ffffffffffffffff"), Some(u64::MAX));
    assert_eq!(parse_hex_digits(b"1ffffffffffffffff"), None);
}

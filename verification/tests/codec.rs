use nova_scotia::codec::{hex_to_decimal, is_hex_numeral, FieldElement};
use nova_scotia::error::ErrorKind;

fn element(low: u64) -> FieldElement {
    let mut repr = [0u8; 32];
    repr[..8].copy_from_slice(&low.to_le_bytes());
    FieldElement::from_repr(repr)
}

#[test]
fn hex_to_decimal_reads_small_numerals() {
    assert_eq!(hex_to_decimal("0"), Ok("0".to_string()));
    assert_eq!(hex_to_decimal("5"), Ok("5".to_string()));
    assert_eq!(hex_to_decimal("a"), Ok("10".to_string()));
    assert_eq!(hex_to_decimal("ff"), Ok("255".to_string()));
    assert_eq!(hex_to_decimal("FF"), Ok("255".to_string()));
    assert_eq!(hex_to_decimal("fF"), Ok("255".to_string()));
    assert_eq!(hex_to_decimal("100"), Ok("256".to_string()));
}

#[test]
fn hex_to_decimal_drops_leading_zeros() {
    assert_eq!(hex_to_decimal("0000"), Ok("0".to_string()));
    assert_eq!(hex_to_decimal("000a"), Ok("10".to_string()));
    assert_eq!(
        hex_to_decimal("0000000000000000000000000000000000000000000000000000000000000007"),
        Ok("7".to_string())
    );
}

#[test]
fn hex_to_decimal_reads_a_number_wider_than_a_machine_word() {
    assert_eq!(
        hex_to_decimal("40000000000000000000000000000000224698fc0994a8dd8c46eb2100000001"),
        Ok("28948022309329048855892746252171976963363056481941647379679742748393362948097"
            .to_string())
    );
    assert_eq!(hex_to_decimal("10000000000000000"), Ok("18446744073709551616".to_string()));
}

#[test]
fn hex_to_decimal_refuses_a_radix_prefix() {
    assert_eq!(hex_to_decimal("0xg1"), Err(ErrorKind::MalformedNumeral));
    assert_eq!(hex_to_decimal("0x05"), Err(ErrorKind::MalformedNumeral));
}

#[test]
fn hex_to_decimal_refuses_what_is_no_digit() {
    assert_eq!(hex_to_decimal(""), Err(ErrorKind::MalformedNumeral));
    assert_eq!(hex_to_decimal("g"), Err(ErrorKind::MalformedNumeral));
    assert_eq!(hex_to_decimal("12 "), Err(ErrorKind::MalformedNumeral));
    assert_eq!(hex_to_decimal("+ff"), Err(ErrorKind::MalformedNumeral));
    assert_eq!(hex_to_decimal("-ff"), Err(ErrorKind::MalformedNumeral));
    assert_eq!(hex_to_decimal("f_f"), Err(ErrorKind::MalformedNumeral));
    assert_eq!(hex_to_decimal("\u{e9}"), Err(ErrorKind::MalformedNumeral));
    assert_eq!(hex_to_decimal("1\u{ff11}"), Err(ErrorKind::MalformedNumeral));
}

#[test]
fn is_hex_numeral_accepts_digits_of_either_case_only() {
    assert!(is_hex_numeral("0123456789abcdefABCDEF"));
    assert!(!is_hex_numeral(""));
    assert!(!is_hex_numeral("0x1"));
    assert!(!is_hex_numeral("/"));
    assert!(!is_hex_numeral(":"));
    assert!(!is_hex_numeral("@"));
    assert!(!is_hex_numeral("G"));
    assert!(!is_hex_numeral("`"));
    assert!(!is_hex_numeral("g"));
}

#[test]
fn to_hex_gives_sixty_four_digits_most_significant_first() {
    assert_eq!(
        element(5).to_hex(),
        "0000000000000000000000000000000000000000000000000000000000000005"
    );
    assert_eq!(
        element(0x0123_4567_89ab_cdef).to_hex(),
        "0000000000000000000000000000000000000000000000000123456789abcdef"
    );
    let mut repr = [0u8; 32];
    repr[31] = 0x40;
    repr[0] = 0x01;
    assert_eq!(
        FieldElement::from_repr(repr).to_hex(),
        "4000000000000000000000000000000000000000000000000000000000000001"
    );
}

#[test]
fn to_decimal_gives_the_value_without_leading_zeros() {
    assert_eq!(element(0).to_decimal(), "0");
    assert_eq!(element(5).to_decimal(), "5");
    assert_eq!(element(255).to_decimal(), "255");
    assert_eq!(element(u64::MAX).to_decimal(), "18446744073709551615");
    let mut repr = [0u8; 32];
    repr[8] = 1;
    assert_eq!(FieldElement::from_repr(repr).to_decimal(), "18446744073709551616");
}

#[test]
fn hex_to_decimal_agrees_with_num_bigint() {
    let numerals = [
        "0",
        "1",
        "9",
        "a",
        "F",
        "10",
        "7fffffffffffffff",
        "ffffffffffffffff",
        "0123456789abcdefABCDEF",
        "00000000000000000000000000000000000000000000000000000000deadbeef",
        "40000000000000000000000000000000224698fc0994a8dd8c46eb2100000000",
        "ffffffffffffffffffffffffffffffffffffffffffffffffffffffffffffffffffffffffffffffff",
    ];
    for hex in numerals {
        let expected = num_bigint::BigUint::parse_bytes(hex.as_bytes(), 16).unwrap();
        let decimal = hex_to_decimal(hex).unwrap();
        assert_eq!(decimal, expected.to_str_radix(10));
        assert_eq!(num_bigint::BigUint::parse_bytes(decimal.as_bytes(), 10).unwrap(), expected);
        assert!(decimal == "0" || !decimal.starts_with('0'));
        assert!(decimal.bytes().all(|b| b.is_ascii_digit()));
    }
}

#[test]
fn to_decimal_agrees_with_num_bigint() {
    let mut repr = [0u8; 32];
    for (i, byte) in repr.iter_mut().enumerate() {
        *byte = (i as u8).wrapping_mul(37).wrapping_add(11);
    }
    let element = FieldElement::from_repr(repr);
    let expected = num_bigint::BigUint::from_bytes_le(&repr);
    assert_eq!(element.to_decimal(), expected.to_str_radix(10));
    assert_eq!(element.to_hex(), format!("{:064x}", expected));
}

use nova_scotia::codec::FieldElement;
use nova_scotia::gateway::GatewayError;
use nova_scotia::wtns::{decode_witness, HEADER_BYTES, VALUE_BYTES};

fn witness_file(values: &[u64]) -> Vec<u8> {
    let mut file = Vec::new();
    file.extend_from_slice(b"wtns");
    file.extend_from_slice(&2u32.to_le_bytes());
    file.extend_from_slice(&2u32.to_le_bytes());
    file.extend_from_slice(&1u32.to_le_bytes());
    file.extend_from_slice(&40u64.to_le_bytes());
    file.extend_from_slice(&32u32.to_le_bytes());
    file.extend_from_slice(&[0xab; 32]);
    file.extend_from_slice(&(values.len() as u32).to_le_bytes());
    file.extend_from_slice(&2u32.to_le_bytes());
    file.extend_from_slice(&(32 * values.len() as u64).to_le_bytes());
    for v in values {
        file.extend_from_slice(&v.to_le_bytes());
        file.extend_from_slice(&[0u8; 24]);
    }
    file
}

fn entry(low: u64) -> FieldElement {
    let mut repr = [0u8; 32];
    repr[..8].copy_from_slice(&low.to_le_bytes());
    FieldElement::from_repr(repr)
}

#[test]
fn the_header_has_seventy_six_bytes_and_a_value_thirty_two() {
    assert_eq!(HEADER_BYTES, 76);
    assert_eq!(VALUE_BYTES, 32);
    assert_eq!(witness_file(&[]).len(), HEADER_BYTES);
    assert_eq!(witness_file(&[1, 2]).len(), HEADER_BYTES + 2 * VALUE_BYTES);
}

#[test]
fn a_witness_file_gives_its_values_in_order() {
    let file = witness_file(&[1, 6, 5, 0x0102_0304_0506_0708]);
    assert_eq!(
        decode_witness(&file),
        Ok(vec![entry(1), entry(6), entry(5), entry(0x0102_0304_0506_0708)])
    );
}

#[test]
fn a_value_is_read_with_all_its_bytes() {
    let mut file = witness_file(&[0]);
    for (i, byte) in file[HEADER_BYTES..].iter_mut().enumerate() {
        *byte = 0xe0 + i as u8;
    }
    let mut repr = [0u8; 32];
    for (i, byte) in repr.iter_mut().enumerate() {
        *byte = 0xe0 + i as u8;
    }
    assert_eq!(decode_witness(&file), Ok(vec![FieldElement::from_repr(repr)]));
}

#[test]
fn a_witness_file_without_values_gives_none() {
    assert_eq!(decode_witness(&witness_file(&[])), Ok(vec![]));
}

#[test]
fn an_older_version_is_read_too() {
    let mut file = witness_file(&[9]);
    file[4] = 1;
    assert_eq!(decode_witness(&file), Ok(vec![entry(9)]));
    file[4] = 0;
    assert_eq!(decode_witness(&file), Ok(vec![entry(9)]));
}

#[test]
fn what_follows_the_last_value_is_not_read() {
    let mut file = witness_file(&[9, 8]);
    file.extend_from_slice(&[0xff; 5]);
    assert_eq!(decode_witness(&file), Ok(vec![entry(9), entry(8)]));
}

#[test]
fn a_short_file_is_rejected() {
    let file = witness_file(&[9, 8]);
    for len in 0..file.len() {
        assert_eq!(decode_witness(&file[..len]), Err(GatewayError::GeneratorRejected), "{len}");
    }
}

#[test]
fn a_wrong_header_field_is_rejected() {
    let good = witness_file(&[9, 8]);
    let wrong_bytes = [
        (0, b'W'),
        (3, b't'),
        (4, 3),
        (5, 1),
        (8, 3),
        (11, 1),
        (12, 2),
        (16, 41),
        (23, 1),
        (24, 31),
        (27, 1),
        (60, 3),
        (61, 1),
        (64, 1),
        (68, 63),
        (75, 1),
    ];
    for (at, byte) in wrong_bytes {
        let mut file = good.clone();
        assert_ne!(file[at], byte);
        file[at] = byte;
        assert_eq!(decode_witness(&file), Err(GatewayError::GeneratorRejected), "byte {at}");
    }
}

#[test]
fn the_modulus_is_not_examined() {
    let mut file = witness_file(&[9]);
    for byte in file[28..60].iter_mut() {
        *byte = 0;
    }
    assert_eq!(decode_witness(&file), Ok(vec![entry(9)]));
}

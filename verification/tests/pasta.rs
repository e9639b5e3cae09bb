use ff::{Field, PrimeField};
use nova_scotia::codec::{hex_to_decimal, FieldElement};
use pasta_curves::pallas::Scalar;

fn library_element(x: &Scalar) -> FieldElement {
    FieldElement::from_repr(x.to_repr())
}

#[test]
fn to_hex_is_the_debug_text_of_a_pallas_scalar_without_its_prefix() {
    let samples = [
        Scalar::ZERO,
        Scalar::ONE,
        Scalar::from(5u64),
        Scalar::from(u64::MAX),
        -Scalar::ONE,
        Scalar::from(0x0123_4567_89ab_cdefu64).square(),
        Scalar::from(7u64).invert().unwrap(),
    ];
    for x in samples {
        let debug = format!("{:?}", x);
        assert_eq!(debug.strip_prefix("0x"), Some(library_element(&x).to_hex().as_str()));
    }
}

#[test]
fn to_decimal_of_the_largest_pallas_scalar() {
    let largest = -Scalar::ONE;
    assert_eq!(
        library_element(&largest).to_decimal(),
        "28948022309329048855892746252171976963363056481941647379679742748393362948096"
    );
}

#[test]
fn debug_text_of_a_scalar_is_no_numeral_until_the_prefix_is_gone() {
    let debug = format!("{:?}", Scalar::from(6u64));
    assert!(hex_to_decimal(&debug).is_err());
    assert_eq!(hex_to_decimal(debug.strip_prefix("0x").unwrap()), Ok("6".to_string()));
}

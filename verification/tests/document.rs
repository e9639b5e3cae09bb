use nova_scotia::codec::FieldElement;
use nova_scotia::document::CircomInput;
use serde_json::Value;
use std::collections::HashMap;

fn signal(low: u64) -> FieldElement {
    let mut repr = [0u8; 32];
    repr[..8].copy_from_slice(&low.to_le_bytes());
    FieldElement::from_repr(repr)
}

#[test]
fn a_document_holds_the_public_input_in_decimal() {
    let document = CircomInput::new(&vec![signal(5), signal(0), signal(4096)], HashMap::new());
    assert_eq!(document.step_in, vec!["5".to_string(), "0".to_string(), "4096".to_string()]);
    assert!(document.extra.is_empty());
}

#[test]
fn a_document_of_no_public_input_has_no_step_in() {
    let document = CircomInput::new(&Vec::new(), HashMap::new());
    assert!(document.step_in.is_empty());
}

#[test]
fn a_document_carries_the_private_input_as_it_is() {
    let mut extra = HashMap::new();
    extra.insert("adder".to_string(), Value::from(3));
    extra.insert("path".to_string(), Value::Array(vec![Value::from("1"), Value::from("0")]));
    extra.insert("flag".to_string(), Value::Bool(true));
    extra.insert("nothing".to_string(), Value::Null);
    let document = CircomInput::new(&vec![signal(1)], extra.clone());
    assert_eq!(document.extra, extra);
    assert_eq!(document.step_in, vec!["1".to_string()]);
}

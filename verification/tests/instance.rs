use nova_scotia::codec::FieldElement;
use nova_scotia::gateway::GatewayError;
use nova_scotia::instance::{CircuitDescription, StepInstance, Witness};

fn value(low: u64) -> FieldElement {
    let mut repr = [0u8; 32];
    repr[..8].copy_from_slice(&low.to_le_bytes());
    FieldElement::from_repr(repr)
}

#[test]
fn a_description_needs_its_outputs_inside_the_witness() {
    assert!(CircuitDescription::new(5, vec![1, 2]).is_some());
    assert!(CircuitDescription::new(5, vec![4, 0]).is_some());
    assert!(CircuitDescription::new(5, vec![]).is_some());
    assert!(CircuitDescription::new(0, vec![]).is_some());
    assert_eq!(CircuitDescription::new(5, vec![1, 5]), None);
    assert_eq!(CircuitDescription::new(5, vec![usize::MAX]), None);
    assert_eq!(CircuitDescription::new(0, vec![0]), None);
}

#[test]
fn a_description_reports_its_shape() {
    let description = CircuitDescription::new(7, vec![1, 2, 3]).unwrap();
    assert_eq!(description.public_arity(), 3);
    assert_eq!(description.witness_len(), 7);
}

#[test]
fn a_witness_is_accepted_only_at_the_circuit_s_size() {
    let description = CircuitDescription::new(3, vec![1]).unwrap();
    assert!(Witness::accept(&description, vec![value(1), value(6), value(5)]).is_ok());
    assert_eq!(
        Witness::accept(&description, vec![value(1), value(6)]),
        Err(GatewayError::GeneratorRejected)
    );
    assert_eq!(
        Witness::accept(&description, vec![value(1), value(6), value(5), value(0)]),
        Err(GatewayError::GeneratorRejected)
    );
    assert_eq!(Witness::accept(&description, vec![]), Err(GatewayError::GeneratorRejected));
}

#[test]
fn public_outputs_come_in_declared_order() {
    let description = CircuitDescription::new(6, vec![4, 1, 1, 5]).unwrap();
    let values: Vec<FieldElement> = (10..16).map(value).collect();
    let witness = Witness::accept(&description, values).unwrap();
    let instance = StepInstance::build(&description, witness);
    assert_eq!(
        instance.extract_public_outputs(),
        vec![value(14), value(11), value(11), value(15)]
    );
}

#[test]
fn a_step_has_as_many_public_outputs_as_public_inputs() {
    for arity in 0..5usize {
        let description = CircuitDescription::new(1 + 2 * arity, (1..=arity).collect()).unwrap();
        let values: Vec<FieldElement> = (0..(1 + 2 * arity) as u64).map(value).collect();
        let witness = Witness::accept(&description, values).unwrap();
        let outputs = StepInstance::build(&description, witness).extract_public_outputs();
        assert_eq!(outputs.len(), description.public_arity());
    }
}

#[test]
fn a_witness_keeps_its_values_through_an_instance() {
    let description = CircuitDescription::new(3, vec![1]).unwrap();
    let values = vec![value(1), value(6), value(5)];
    let witness = Witness::accept(&description, values.clone()).unwrap();
    assert_eq!(witness.values(), &values);
    let instance = StepInstance::build(&description, witness);
    assert_eq!(instance.extract_public_outputs(), vec![value(6)]);
    assert_eq!(instance.into_witness().values(), &values);
}

//! The step instance builder: the circuit's shape, a witness that fits it, and
//! the public outputs that an instance hands to the next step.

use crate::codec::FieldElement;
use crate::gateway::GatewayError;
use vstd::prelude::*;

verus! {

/// The shape of the circuit that every step of a run instantiates: how many
/// values a witness has, and where among them the public outputs stand, in the
/// order in which the circuit declares them.
#[derive(Debug, PartialEq, Eq)]
pub struct CircuitDescription {
    variables: usize,
    public_outputs: Vec<usize>,
}

impl CircuitDescription {
    /// The number of values in a witness of this circuit.
    pub closed spec fn variables(&self) -> nat {
        self.variables as nat
    }

    /// The positions of the public outputs in a witness, in declared order.
    pub closed spec fn public_outputs(&self) -> Seq<usize> {
        self.public_outputs@
    }

    /// The number of public outputs, which is also the number of public
    /// inputs: a step hands its outputs to the next step as inputs.
    pub open spec fn arity(&self) -> nat {
        self.public_outputs().len()
    }

    /// Every public output stands at a position that a witness has. This
    /// holds of every description.
    #[verifier::type_invariant]
    pub open spec fn wf(&self) -> bool {
        forall|i: int|
            0 <= i < self.public_outputs().len() ==> (#[trigger] self.public_outputs()[i])
                < self.variables()
    }

    /// The public outputs that a witness with the given values shows.
    pub open spec fn outputs_of(&self, values: Seq<FieldElement>) -> Seq<FieldElement> {
        Seq::new(self.arity(), |i: int| values[self.public_outputs()[i] as int])
    }

    /// A description with the given witness size and output positions, or
    /// `None` where a position lies outside a witness.
    pub fn new(variables: usize, public_outputs: Vec<usize>) -> (made: Option<CircuitDescription>)
        ensures
            made is Some <==> (forall|i: int|
                0 <= i < public_outputs@.len() ==> (#[trigger] public_outputs@[i]) < variables),
            made matches Some(d) ==> d.wf() && d.variables() == variables && d.public_outputs()
                == public_outputs@,
    {
        let mut i: usize = 0;
        while i < public_outputs.len()
            invariant
                i <= public_outputs@.len(),
                forall|j: int| 0 <= j < i ==> (#[trigger] public_outputs@[j]) < variables,
            decreases public_outputs@.len() - i,
        {
            if public_outputs[i] >= variables {
                return None;
            }
            i = i + 1;
        }
        Some(CircuitDescription { variables, public_outputs })
    }

    /// The number of public inputs and outputs of a step.
    pub fn public_arity(&self) -> (n: usize)
        ensures
            n == self.arity(),
    {
        self.public_outputs.len()
    }

    /// The number of values in a witness of this circuit.
    pub fn witness_len(&self) -> (n: usize)
        ensures
            n == self.variables(),
    {
        self.variables
    }
}

/// A satisfying assignment for one step, as the generator gave it. It belongs
/// to the one instance that is built from it.
#[derive(Debug, PartialEq, Eq)]
pub struct Witness {
    values: Vec<FieldElement>,
}

impl View for Witness {
    type V = Seq<FieldElement>;

    closed spec fn view(&self) -> Seq<FieldElement> {
        self.values@
    }
}

impl Witness {
    /// Takes what a generator returned as the witness of a step of the given
    /// circuit, or rejects it where it has not one value for each variable.
    pub fn accept(description: &CircuitDescription, values: Vec<FieldElement>) -> (r: Result<
        Witness,
        GatewayError,
    >)
        ensures
            r is Ok <==> values@.len() == description.variables(),
            r matches Ok(w) ==> w@ == values@,
            r matches Err(e) ==> e == GatewayError::GeneratorRejected,
    {
        if values.len() == description.variables {
            Ok(Witness { values })
        } else {
            Err(GatewayError::GeneratorRejected)
        }
    }

    /// The values of the witness, in the generator's order.
    pub fn values(&self) -> (values: &Vec<FieldElement>)
        ensures
            values@ == self@,
    {
        &self.values
    }
}

/// One step of the computation: the shared circuit with the witness of this
/// step.
pub struct StepInstance<'a> {
    description: &'a CircuitDescription,
    witness: Witness,
}

impl<'a> StepInstance<'a> {
    /// The circuit that the instance is a step of.
    pub closed spec fn description(&self) -> CircuitDescription {
        *self.description
    }

    /// The witness that the instance owns.
    pub closed spec fn witness(&self) -> Seq<FieldElement> {
        self.witness@
    }

    /// The instance fits together: the circuit is well formed and the witness
    /// has one value for each of its variables. This holds of every instance.
    #[verifier::type_invariant]
    pub open spec fn wf(&self) -> bool {
        &&& self.description().wf()
        &&& self.witness().len() == self.description().variables()
    }

    /// Puts the circuit and a witness of it together.
    pub fn build(description: &'a CircuitDescription, witness: Witness) -> (instance: StepInstance<
        'a,
    >)
        requires
            witness@.len() == description.variables(),
        ensures
            instance.wf(),
            instance.description() == *description,
            instance.witness() == witness@,
    {
        proof {
            use_type_invariant(description);
        }
        StepInstance { description, witness }
    }

    /// Takes the instance apart and gives its witness back.
    pub fn into_witness(self) -> (witness: Witness)
        ensures
            witness@ == self.witness(),
            witness@.len() == self.description().variables(),
    {
        proof {
            use_type_invariant(&self);
        }
        self.witness
    }

    /// The public outputs of the step, in the order in which the circuit
    /// declares them. There are as many as the circuit has public inputs.
    pub fn extract_public_outputs(&self) -> (outputs: Vec<FieldElement>)
        ensures
            outputs@ == self.description().outputs_of(self.witness()),
            outputs@.len() == self.description().arity(),
    {
        proof {
            use_type_invariant(self);
        }
        let mut outputs: Vec<FieldElement> = Vec::new();
        let n = self.description.public_outputs.len();
        let mut i: usize = 0;
        while i < n
            invariant
                self.wf(),
                n == self.description().arity(),
                i <= n,
                outputs@.len() == i,
                forall|j: int|
                    0 <= j < i ==> outputs@[j] == self.witness()[self.description().public_outputs()[j] as int],
            decreases n - i,
        {
            let position = self.description.public_outputs[i];
            outputs.push(self.witness.values[position]);
            i = i + 1;
        }
        assert(outputs@ =~= self.description().outputs_of(self.witness()));
        outputs
    }
}

} // verus!

//! The circuit input document of one step: the public input in decimal text
//! and the step's private input.

use crate::codec::FieldElement;
use crate::numeral::numeral_text;
use serde_json::Value;
use std::collections::HashMap;
use vstd::prelude::*;

verus! {

/// Declares `serde_json::Value`. A value is carried through; nothing is known
/// of what it holds.
#[verifier::external_type_specification]
#[verifier::external_body]
pub struct ExValue(serde_json::Value);

/// The decimal texts of some field elements, one for each, in order.
pub open spec fn decimal_texts(elements: Seq<FieldElement>) -> Seq<Seq<char>> {
    Seq::new(elements.len(), |i: int| numeral_text(elements[i].value(), 10))
}

/// What a witness generator reads for one step. `step_in` holds the step's
/// public input, each element as a decimal numeral; `extra` holds the step's
/// private signals by name.
#[derive(Debug, PartialEq)]
pub struct CircomInput {
    pub step_in: Vec<String>,
    pub extra: HashMap<String, Value>,
}

impl CircomInput {
    /// The texts in `step_in`, in order.
    pub open spec fn step_in_texts(&self) -> Seq<Seq<char>> {
        Seq::new(self.step_in@.len(), |i: int| self.step_in@[i]@)
    }

    /// Whether this is the document of a step with the given public input and
    /// private input.
    pub open spec fn is_document_of(
        &self,
        public_input: Seq<FieldElement>,
        extra: HashMap<String, Value>,
    ) -> bool {
        &&& self.step_in_texts() == decimal_texts(public_input)
        &&& self.extra == extra
    }

    /// The document of a step with the given public input and private input.
    pub fn new(public_input: &Vec<FieldElement>, extra: HashMap<String, Value>) -> (document:
        CircomInput)
        ensures
            document.is_document_of(public_input@, extra),
    {
        let mut step_in: Vec<String> = Vec::new();
        let n = public_input.len();
        let mut i: usize = 0;
        while i < n
            invariant
                n == public_input@.len(),
                i <= n,
                step_in@.len() == i,
                forall|j: int|
                    0 <= j < i ==> (#[trigger] step_in@[j])@ == numeral_text(
                        public_input@[j].value(),
                        10,
                    ),
            decreases n - i,
        {
            step_in.push(public_input[i].to_decimal());
            i = i + 1;
        }
        let document = CircomInput { step_in, extra };
        assert(document.step_in_texts() =~= decimal_texts(public_input@));
        document
    }
}

} // verus!

//! The driver of a run. It decides what is to be done next: generate the
//! witness of a step, fold the step into the proof, stop with the proof or
//! stop with a failure. The caller does the work and reports how it went.
//!
//! A run is in one of two stages, each a type of its own. `AwaitingWitness`
//! has asked for the witness of a step; `AwaitingFold` has asked for the fold
//! of that step. Each report consumes the stage it is made to, so a step can
//! be folded only after the one before it was, and nothing can follow a
//! failure.
//!
//! The stages have models, `WitnessStage` and `FoldStage`, and the steps
//! between the models are spec functions. The contracts of the executable
//! steps say that they do what the models do. What holds of whole runs is
//! stated of the models, at the end of this file.

use crate::codec::FieldElement;
use crate::document::CircomInput;
use crate::error::ErrorKind;
use crate::gateway::{Backend, GatewayError};
use crate::instance::{CircuitDescription, StepInstance, Witness};
use core::marker::PhantomData;
use serde_json::Value;
use std::collections::HashMap;
use vstd::prelude::*;

verus! {

/// The state of the proof accumulator: no step folded yet, or the proof of
/// all the steps folded so far.
#[derive(Debug, PartialEq, Eq)]
pub enum Accumulator<P> {
    /// No step is folded yet.
    Empty,
    /// The proof of the steps folded so far.
    Accumulated(P),
}

/// The end of a run that failed: what went wrong, at which step, and how many
/// folds had been asked for by then.
#[derive(Clone, Copy, Debug, PartialEq, Eq, Structural)]
pub struct RunFailure {
    /// What went wrong.
    pub kind: ErrorKind,
    /// The step at which it went wrong, counted from zero.
    pub index: usize,
    /// The number of folds that had been asked for.
    pub folds: usize,
}

/// The request to generate the witness of a step.
#[derive(Debug, PartialEq)]
pub struct GenerateRequest {
    /// The step, counted from zero.
    pub index: usize,
    /// The backend chosen for the run.
    pub backend: Backend,
    /// What the generator is to read.
    pub document: CircomInput,
}

/// The request to fold a step into the proof.
#[derive(Debug, PartialEq, Eq)]
pub struct FoldRequest<P> {
    /// The step, counted from zero.
    pub index: usize,
    /// The proof so far. The fold consumes it.
    pub prior: Accumulator<P>,
}

/// What a request to generate a witness asks for.
pub struct Generation {
    /// The step, counted from zero.
    pub index: nat,
    /// The backend chosen for the run.
    pub backend: Backend,
    /// The public input of the step.
    pub public_input: Seq<FieldElement>,
    /// The private input of the step.
    pub private_input: HashMap<String, Value>,
}

impl GenerateRequest {
    /// Whether the request asks for `generation`: it names the same step and
    /// backend, and its document is the one of the step's inputs.
    pub open spec fn is_for(&self, generation: Generation) -> bool {
        &&& self.index == generation.index
        &&& self.backend == generation.backend
        &&& self.document.is_document_of(generation.public_input, generation.private_input)
    }
}

/// The state of a run while the witness of a step is awaited.
pub struct WitnessStage<P> {
    /// The circuit that every step instantiates.
    pub description: CircuitDescription,
    /// The backend chosen for the run.
    pub backend: Backend,
    /// The number of steps of the run.
    pub total: nat,
    /// The step whose witness is awaited.
    pub index: nat,
    /// The number of folds asked for so far.
    pub folds: nat,
    /// The public input of the first step, which every fold is given.
    pub start: Seq<FieldElement>,
    /// The public input of the step.
    pub input: Seq<FieldElement>,
    /// The private inputs of the steps after this one.
    pub pending: Seq<HashMap<String, Value>>,
    /// The proof of the steps before this one.
    pub accumulator: Accumulator<P>,
}

/// The state of a run while the fold of a step is awaited.
pub struct FoldStage {
    /// The circuit that every step instantiates.
    pub description: CircuitDescription,
    /// The backend chosen for the run.
    pub backend: Backend,
    /// The number of steps of the run.
    pub total: nat,
    /// The step whose fold is awaited.
    pub index: nat,
    /// The number of folds asked for so far, this one included.
    pub folds: nat,
    /// The public input of the first step, which every fold is given.
    pub start: Seq<FieldElement>,
    /// The witness of the step, which the fold is given.
    pub witness: Seq<FieldElement>,
    /// The public output of the step, which is the public input of the next.
    pub output: Seq<FieldElement>,
    /// The private inputs of the steps after this one.
    pub pending: Seq<HashMap<String, Value>>,
}

/// How a run goes on after a fold, in the model.
pub enum Advance<P> {
    /// With the witness of the next step.
    Generate(WitnessStage<P>, Generation),
    /// It does not: every step is folded.
    Finished { proof: P, folds: nat },
}

/// The beginning of a run of one step for each private input: the first
/// step's witness is asked for, with the start vector as its public input. A
/// run without steps is an `EmptyRun`.
pub open spec fn begin<P>(
    description: CircuitDescription,
    backend: Backend,
    start_public_input: Seq<FieldElement>,
    private_inputs: Seq<HashMap<String, Value>>,
) -> Result<(WitnessStage<P>, Generation), RunFailure> {
    if private_inputs.len() == 0 {
        Err(RunFailure { kind: ErrorKind::EmptyRun, index: 0, folds: 0 })
    } else {
        Ok(
            (
                WitnessStage {
                    description,
                    backend,
                    total: private_inputs.len(),
                    index: 0,
                    folds: 0,
                    start: start_public_input,
                    input: start_public_input,
                    pending: private_inputs.skip(1),
                    accumulator: Accumulator::Empty,
                },
                Generation {
                    index: 0,
                    backend,
                    public_input: start_public_input,
                    private_input: private_inputs[0],
                },
            ),
        )
    }
}

impl<P> WitnessStage<P> {
    /// What holds of every run that awaits a witness. As many folds were
    /// asked for as steps went before, and the public input has the
    /// circuit's arity.
    pub open spec fn wf(self) -> bool {
        &&& self.description.wf()
        &&& self.total <= usize::MAX
        &&& self.index < self.total
        &&& self.folds == self.index
        &&& self.start.len() == self.description.arity()
        &&& self.input.len() == self.description.arity()
        &&& (self.index == 0 ==> self.input == self.start)
        &&& self.pending.len() == self.total - self.index - 1
        &&& (self.accumulator is Empty <==> self.index == 0)
    }

    /// The generator failed: the run ends at this step with the generator's
    /// failure, and no fold is asked for.
    pub open spec fn generation_failed(self, error: GatewayError) -> RunFailure {
        RunFailure { kind: error.kind_spec(), index: self.index as usize, folds: self.folds as usize }
    }

    /// The generator gave `values`. Where they fit the circuit, the step's
    /// public outputs are read from them and the fold of the step is asked
    /// for, with the proof so far. Where they do not, the run ends as
    /// `GeneratorRejected`, and no fold is asked for.
    pub open spec fn witness_generated(self, values: Seq<FieldElement>) -> Result<
        (FoldStage, FoldRequest<P>),
        RunFailure,
    > {
        if values.len() == self.description.variables() {
            Ok(
                (
                    FoldStage {
                        description: self.description,
                        backend: self.backend,
                        total: self.total,
                        index: self.index,
                        folds: self.folds + 1,
                        start: self.start,
                        witness: values,
                        output: self.description.outputs_of(values),
                        pending: self.pending,
                    },
                    FoldRequest { index: self.index as usize, prior: self.accumulator },
                ),
            )
        } else {
            Err(self.generation_failed(GatewayError::GeneratorRejected))
        }
    }
}

impl FoldStage {
    /// What holds of every run that awaits a fold. The public output has
    /// the circuit's arity, as the public input had.
    pub open spec fn wf(self) -> bool {
        &&& self.description.wf()
        &&& self.total <= usize::MAX
        &&& self.index < self.total
        &&& self.folds == self.index + 1
        &&& self.start.len() == self.description.arity()
        &&& self.witness.len() == self.description.variables()
        &&& self.output == self.description.outputs_of(self.witness)
        &&& self.pending.len() == self.total - self.index - 1
    }

    /// The engine refused the step: the run ends at this step as
    /// `FoldingFailure`.
    pub open spec fn fold_failed(self) -> RunFailure {
        RunFailure {
            kind: ErrorKind::FoldingFailure,
            index: self.index as usize,
            folds: self.folds as usize,
        }
    }

    /// The engine folded the step and gave `proof`. After the last step the
    /// run is finished and `proof` is its result. Otherwise the witness of
    /// the next step is asked for; its public input is this step's public
    /// output.
    pub open spec fn fold_succeeded<P>(self, proof: P) -> Advance<P> {
        if self.index + 1 == self.total {
            Advance::Finished { proof, folds: self.folds }
        } else {
            Advance::Generate(
                WitnessStage {
                    description: self.description,
                    backend: self.backend,
                    total: self.total,
                    index: self.index + 1,
                    folds: self.folds,
                    start: self.start,
                    input: self.output,
                    pending: self.pending.skip(1),
                    accumulator: Accumulator::Accumulated(proof),
                },
                Generation {
                    index: self.index + 1,
                    backend: self.backend,
                    public_input: self.output,
                    private_input: self.pending[0],
                },
            )
        }
    }
}

/// A run that has asked for the witness of a step.
#[derive(Debug)]
pub struct AwaitingWitness<P> {
    description: CircuitDescription,
    backend: Backend,
    total: usize,
    index: usize,
    folds: usize,
    start: Vec<FieldElement>,
    input: Vec<FieldElement>,
    pending: Vec<HashMap<String, Value>>,
    accumulator: Accumulator<P>,
}

/// A run that has asked for the fold of a step.
#[derive(Debug)]
pub struct AwaitingFold<P> {
    description: CircuitDescription,
    backend: Backend,
    total: usize,
    index: usize,
    folds: usize,
    start: Vec<FieldElement>,
    witness: Witness,
    output: Vec<FieldElement>,
    pending: Vec<HashMap<String, Value>>,
    proof_type: PhantomData<P>,
}

/// How a run goes on after a fold.
#[derive(Debug)]
pub enum Next<P> {
    /// With the witness of the next step.
    Generate(AwaitingWitness<P>, GenerateRequest),
    /// It does not: every step is folded. `proof` is the terminal proof and
    /// `folds` the number of folds that made it.
    Finished { proof: P, folds: usize },
}

impl<P> Next<P> {
    /// Whether this is `advance`, the stage taken by its model and the
    /// request by what it asks for.
    pub open spec fn is_advance(self, advance: Advance<P>) -> bool {
        match advance {
            Advance::Generate(stage, generation) => {
                &&& self matches Next::Generate(run, request)
                &&& run@ == stage
                &&& request.is_for(generation)
            },
            Advance::Finished { proof, folds } => self == (Next::Finished {
                proof,
                folds: folds as usize,
            }),
        }
    }
}

impl<P> View for AwaitingWitness<P> {
    type V = WitnessStage<P>;

    closed spec fn view(&self) -> WitnessStage<P> {
        WitnessStage {
            description: self.description,
            backend: self.backend,
            total: self.total as nat,
            index: self.index as nat,
            folds: self.folds as nat,
            start: self.start@,
            input: self.input@,
            pending: self.pending@,
            accumulator: self.accumulator,
        }
    }
}

impl<P> View for AwaitingFold<P> {
    type V = FoldStage;

    closed spec fn view(&self) -> FoldStage {
        FoldStage {
            description: self.description,
            backend: self.backend,
            total: self.total as nat,
            index: self.index as nat,
            folds: self.folds as nat,
            start: self.start@,
            witness: self.witness@,
            output: self.output@,
            pending: self.pending@,
        }
    }
}

/// A copy of some field elements.
fn copy_elements(elements: &Vec<FieldElement>) -> (copy: Vec<FieldElement>)
    ensures
        copy@ == elements@,
{
    let mut copy: Vec<FieldElement> = Vec::new();
    let mut i: usize = 0;
    while i < elements.len()
        invariant
            i <= elements@.len(),
            copy@ == elements@.take(i as int),
        decreases elements@.len() - i,
    {
        copy.push(elements[i]);
        assert(copy@ =~= elements@.take(i + 1));
        i = i + 1;
    }
    assert(elements@.take(elements@.len() as int) =~= elements@);
    copy
}

/// Begins a run of one step for each private input. The first step's public
/// input is `start_public_input`, which has to have the circuit's arity; the
/// first step's witness is asked for at once. A run without steps is refused
/// as `EmptyRun`.
pub fn start<P>(
    description: CircuitDescription,
    backend: Backend,
    start_public_input: Vec<FieldElement>,
    private_inputs: Vec<HashMap<String, Value>>,
) -> (r: Result<(AwaitingWitness<P>, GenerateRequest), RunFailure>)
    requires
        start_public_input@.len() == description.arity(),
    ensures
        match begin::<P>(description, backend, start_public_input@, private_inputs@) {
            Ok((stage, generation)) => {
                &&& r matches Ok((run, request))
                &&& run@ == stage
                &&& stage.wf()
                &&& request.is_for(generation)
            },
            Err(failure) => r matches Err(e) && e == failure,
        },
{
    let mut pending = private_inputs;
    let total = pending.len();
    if total == 0 {
        return Err(RunFailure { kind: ErrorKind::EmptyRun, index: 0, folds: 0 });
    }
    proof {
        use_type_invariant(&description);
    }
    let first = pending.remove(0);
    assert(pending@ =~= private_inputs@.skip(1));
    let document = CircomInput::new(&start_public_input, first);
    let input = copy_elements(&start_public_input);
    let run = AwaitingWitness {
        description,
        backend,
        total,
        index: 0,
        folds: 0,
        start: start_public_input,
        input,
        pending,
        accumulator: Accumulator::Empty,
    };
    Ok((run, GenerateRequest { index: 0, backend, document }))
}

impl<P> AwaitingWitness<P> {
    #[verifier::type_invariant]
    spec fn inv(self) -> bool {
        self@.wf()
    }

    /// The step whose witness is awaited, counted from zero.
    pub fn index(&self) -> (index: usize)
        ensures
            index == self@.index,
            self@.wf(),
    {
        proof {
            use_type_invariant(self);
        }
        self.index
    }

    /// The public input of the step whose witness is awaited.
    pub fn public_input(&self) -> (input: &Vec<FieldElement>)
        ensures
            input@ == self@.input,
            self@.wf(),
    {
        proof {
            use_type_invariant(self);
        }
        &self.input
    }

    /// The generator gave `values` as the witness of the step. Where they
    /// fit the circuit, the step's public outputs are read from them and
    /// become the public input of the next step, and the fold of the step is
    /// asked for. Where they do not, the run ends as `GeneratorRejected`.
    pub fn witness_generated(self, values: Vec<FieldElement>) -> (r: Result<
        (AwaitingFold<P>, FoldRequest<P>),
        RunFailure,
    >)
        ensures
            self@.wf(),
            match self@.witness_generated(values@) {
                Ok((stage, fold)) => {
                    &&& r matches Ok((run, request))
                    &&& run@ == stage
                    &&& stage.wf()
                    &&& request == fold
                },
                Err(failure) => r matches Err(e) && e == failure,
            },
    {
        proof {
            use_type_invariant(&self);
        }
        let AwaitingWitness {
            description,
            backend,
            total,
            index,
            folds,
            start,
            input: _,
            pending,
            accumulator,
        } = self;
        match Witness::accept(&description, values) {
            Err(error) => Err(RunFailure { kind: error.kind(), index, folds }),
            Ok(witness) => {
                let instance = StepInstance::build(&description, witness);
                let output = instance.extract_public_outputs();
                let witness = instance.into_witness();
                let run = AwaitingFold {
                    description,
                    backend,
                    total,
                    index,
                    folds: folds + 1,
                    start,
                    witness,
                    output,
                    pending,
                    proof_type: PhantomData,
                };
                Ok((run, FoldRequest { index, prior: accumulator }))
            },
        }
    }

    /// The generator failed. The run ends at this step, with the generator's
    /// failure; as many folds were asked for as steps went before.
    pub fn generation_failed(self, error: GatewayError) -> (failure: RunFailure)
        ensures
            self@.wf(),
            failure == self@.generation_failed(error),
            failure.index == self@.index,
            failure.folds == self@.index,
    {
        proof {
            use_type_invariant(&self);
        }
        RunFailure { kind: error.kind(), index: self.index, folds: self.folds }
    }
}

impl<P> AwaitingFold<P> {
    #[verifier::type_invariant]
    spec fn inv(self) -> bool {
        self@.wf()
    }

    /// The step whose fold is awaited, counted from zero.
    pub fn index(&self) -> (index: usize)
        ensures
            index == self@.index,
            self@.wf(),
    {
        proof {
            use_type_invariant(self);
        }
        self.index
    }

    /// The public output of the step whose fold is awaited.
    pub fn public_output(&self) -> (output: &Vec<FieldElement>)
        ensures
            output@ == self@.output,
            self@.wf(),
    {
        proof {
            use_type_invariant(self);
        }
        &self.output
    }

    /// The public input of the first step. The fold of every step is given
    /// this vector, not the step's own public input.
    pub fn start_public_input(&self) -> (start: &Vec<FieldElement>)
        ensures
            start@ == self@.start,
            self@.wf(),
    {
        proof {
            use_type_invariant(self);
        }
        &self.start
    }

    /// The witness of the step whose fold is awaited. The fold is given the
    /// circuit with this witness.
    pub fn witness(&self) -> (witness: &Vec<FieldElement>)
        ensures
            witness@ == self@.witness,
            self@.wf(),
    {
        proof {
            use_type_invariant(self);
        }
        self.witness.values()
    }

    /// The engine folded the step and gave `proof`. After the last step the
    /// run is finished and `proof` is its result. Otherwise the next step
    /// begins: its public input is this step's public output, and its
    /// witness is asked for.
    pub fn fold_succeeded(self, proof: P) -> (next: Next<P>)
        ensures
            self@.wf(),
            next.is_advance(self@.fold_succeeded(proof)),
            next matches Next::Generate(run, _) ==> run@.wf(),
    {
        proof {
            use_type_invariant(&self);
        }
        let AwaitingFold {
            description,
            backend,
            total,
            index,
            folds,
            start,
            witness: _,
            output,
            pending,
            proof_type: _,
        } = self;
        if index + 1 == total {
            return Next::Finished { proof, folds };
        }
        let mut pending = pending;
        let ghost before = pending@;
        let extra = pending.remove(0);
        assert(pending@ =~= before.skip(1));
        let document = CircomInput::new(&output, extra);
        let run = AwaitingWitness {
            description,
            backend,
            total,
            index: index + 1,
            folds,
            start,
            input: output,
            pending,
            accumulator: Accumulator::Accumulated(proof),
        };
        Next::Generate(run, GenerateRequest { index: index + 1, backend, document })
    }

    /// The engine refused the step. The run ends at this step as
    /// `FoldingFailure`; the proof so far went into the fold and is lost.
    pub fn fold_failed(self) -> (failure: RunFailure)
        ensures
            self@.wf(),
            failure == self@.fold_failed(),
    {
        proof {
            use_type_invariant(&self);
        }
        RunFailure { kind: ErrorKind::FoldingFailure, index: self.index, folds: self.folds }
    }
}

/// What the caller reports of one step.
pub enum StepReport<P> {
    /// The generator failed.
    GenerationFailed(GatewayError),
    /// The generator gave these values, and the engine refused the step.
    FoldFailed(Seq<FieldElement>),
    /// The generator gave these values, and the engine gave this proof.
    Folded(Seq<FieldElement>, P),
}

impl<P> StepReport<P> {
    /// The step went well for the circuit `description`: the witness has the
    /// circuit's size and the fold gave a proof.
    pub open spec fn went_well(self, description: CircuitDescription) -> bool {
        self matches StepReport::Folded(values, _) && values.len() == description.variables()
    }

    /// The kind of failure that the report brings, where the step did not go
    /// well: the generator's own, `GeneratorRejected` for a witness that does
    /// not fit the circuit, `FoldingFailure` for a refused fold.
    pub open spec fn failure_kind(self, description: CircuitDescription) -> ErrorKind {
        match self {
            StepReport::GenerationFailed(error) => error.kind_spec(),
            StepReport::FoldFailed(values) => if values.len() == description.variables() {
                ErrorKind::FoldingFailure
            } else {
                ErrorKind::GeneratorRejected
            },
            StepReport::Folded(_, _) => ErrorKind::GeneratorRejected,
        }
    }

    /// The number of folds asked for in the step, where it did not go well:
    /// one where the witness fitted and the fold was refused, else none.
    pub open spec fn folds_asked(self, description: CircuitDescription) -> nat {
        if self.failure_kind(description) == ErrorKind::FoldingFailure {
            1
        } else {
            0
        }
    }
}

/// Where a run stands after some reports.
pub enum Run<P> {
    /// The witness of a step is awaited.
    Going(WitnessStage<P>),
    /// Every step is folded.
    Finished { proof: P, folds: nat },
    /// The run has failed.
    Failed(RunFailure),
}

/// Where a run stands after the report of the step that it awaits.
pub open spec fn step<P>(stage: WitnessStage<P>, report: StepReport<P>) -> Run<P> {
    match report {
        StepReport::GenerationFailed(error) => Run::Failed(stage.generation_failed(error)),
        StepReport::FoldFailed(values) => match stage.witness_generated(values) {
            Err(failure) => Run::Failed(failure),
            Ok((folding, _)) => Run::Failed(folding.fold_failed()),
        },
        StepReport::Folded(values, proof) => match stage.witness_generated(values) {
            Err(failure) => Run::Failed(failure),
            Ok((folding, _)) => match folding.fold_succeeded(proof) {
                Advance::Generate(next, _) => Run::Going(next),
                Advance::Finished { proof, folds } => Run::Finished { proof, folds },
            },
        },
    }
}

/// Where a run stands after the reports of its next steps, in order. What is
/// reported after the run has ended changes nothing.
pub open spec fn run<P>(stage: WitnessStage<P>, reports: Seq<StepReport<P>>) -> Run<P>
    decreases reports.len(),
{
    if reports.len() == 0 {
        Run::Going(stage)
    } else {
        match step(stage, reports.first()) {
            Run::Going(next) => run(next, reports.drop_first()),
            ended => ended,
        }
    }
}

/// A run begins well formed, where the start vector has the circuit's arity.
pub proof fn lemma_begin_wf<P>(
    description: CircuitDescription,
    backend: Backend,
    start_public_input: Seq<FieldElement>,
    private_inputs: Seq<HashMap<String, Value>>,
)
    requires
        description.wf(),
        start_public_input.len() == description.arity(),
        0 < private_inputs.len() <= usize::MAX,
    ensures
        begin::<P>(description, backend, start_public_input, private_inputs) matches Ok(
            (stage, generation),
        ) && stage.wf() && stage.start == start_public_input && stage.input
            == start_public_input && generation.public_input == start_public_input,
{
}

/// The public vector keeps its length within a step: whatever witness the
/// step gets, it shows as many public outputs as the step had public inputs.
pub proof fn lemma_arity_preserved<P>(stage: WitnessStage<P>, values: Seq<FieldElement>)
    requires
        stage.wf(),
    ensures
        stage.witness_generated(values) matches Ok((folding, _)) ==> folding.wf()
            && folding.output.len() == stage.input.len(),
{
}

/// The public vector keeps its length from step to step: where a run goes
/// on after a step, it awaits the next step of the same circuit, and that
/// step's public input is as long as this step's was.
pub proof fn lemma_step_keeps_arity<P>(stage: WitnessStage<P>, report: StepReport<P>)
    requires
        stage.wf(),
    ensures
        step(stage, report) matches Run::Going(next) ==> {
            &&& next.wf()
            &&& next.index == stage.index + 1
            &&& next.total == stage.total
            &&& next.description == stage.description
            &&& next.start == stage.start
            &&& next.input.len() == stage.input.len()
        },
{
}

/// However far a run has come, it is well formed and its public vector has
/// the length that it began with.
pub proof fn lemma_run_keeps_arity<P>(stage: WitnessStage<P>, reports: Seq<StepReport<P>>)
    requires
        stage.wf(),
    ensures
        run(stage, reports) matches Run::Going(reached) ==> {
            &&& reached.wf()
            &&& reached.description == stage.description
            &&& reached.total == stage.total
            &&& reached.index == stage.index + reports.len()
            &&& reached.start == stage.start
            &&& reached.input.len() == stage.input.len()
        },
    decreases reports.len(),
{
    if reports.len() > 0 {
        lemma_step_keeps_arity(stage, reports.first());
        if let Run::Going(next) = step(stage, reports.first()) {
            lemma_run_keeps_arity(next, reports.drop_first());
        }
    }
}

/// The first step that does not go well ends the run, whatever is reported
/// after it. The failure names that step and has the kind that the report
/// brings; as many folds were asked for as steps went before, and one more
/// where it was the fold that was refused. `ahead` counts the steps from the
/// one that `stage` awaits.
pub proof fn lemma_first_failure<P>(
    stage: WitnessStage<P>,
    reports: Seq<StepReport<P>>,
    ahead: nat,
)
    requires
        stage.wf(),
        stage.index + ahead < stage.total,
        ahead < reports.len(),
        forall|j: int| 0 <= j < ahead ==> (#[trigger] reports[j]).went_well(stage.description),
        !reports[ahead as int].went_well(stage.description),
    ensures
        run(stage, reports) matches Run::Failed(failure) && {
            &&& failure.kind == reports[ahead as int].failure_kind(stage.description)
            &&& failure.index == stage.index + ahead
            &&& failure.folds == stage.index + ahead + reports[ahead as int].folds_asked(
                stage.description,
            )
        },
    decreases ahead,
{
    let first = reports.first();
    assert(first == reports[0]);
    if ahead > 0 {
        assert(first.went_well(stage.description));
        lemma_step_keeps_arity(stage, first);
        let next = step(stage, first)->Going_0;
        let rest = reports.drop_first();
        assert forall|j: int| 0 <= j < ahead - 1 implies (#[trigger] rest[j]).went_well(
            next.description,
        ) by {
            assert(rest[j] == reports[j + 1]);
        }
        assert(rest[ahead - 1] == reports[ahead as int]);
        lemma_first_failure(next, rest, (ahead - 1) as nat);
    }
}

/// Fail fast: where the generator fails at a step and every step before it
/// went well, the run ends there. The failure names that step, and exactly
/// as many folds were asked for as steps went before it. `ahead` counts the
/// steps from the one that `stage` awaits.
pub proof fn lemma_fail_fast<P>(
    stage: WitnessStage<P>,
    reports: Seq<StepReport<P>>,
    ahead: nat,
    error: GatewayError,
)
    requires
        stage.wf(),
        stage.index + ahead < stage.total,
        ahead < reports.len(),
        forall|j: int| 0 <= j < ahead ==> (#[trigger] reports[j]).went_well(stage.description),
        reports[ahead as int] == StepReport::<P>::GenerationFailed(error),
    ensures
        run(stage, reports) == Run::<P>::Failed(
            RunFailure {
                kind: error.kind_spec(),
                index: (stage.index + ahead) as usize,
                folds: (stage.index + ahead) as usize,
            },
        ),
{
    lemma_first_failure(stage, reports, ahead);
}

/// A run whose every step goes well ends after its last step, with the
/// proof that the last fold gave and with one fold for each step. `reports`
/// holds one report for each step from the one that `stage` awaits to the
/// last.
pub proof fn lemma_run_completes<P>(stage: WitnessStage<P>, reports: Seq<StepReport<P>>)
    requires
        stage.wf(),
        reports.len() == stage.total - stage.index,
        forall|j: int|
            0 <= j < reports.len() ==> (#[trigger] reports[j]).went_well(stage.description),
    ensures
        run(stage, reports) == (Run::<P>::Finished {
            proof: reports.last()->Folded_1,
            folds: stage.total,
        }),
    decreases reports.len(),
{
    let first = reports.first();
    assert(first == reports[0]);
    assert(first.went_well(stage.description));
    lemma_step_keeps_arity(stage, first);
    let rest = reports.drop_first();
    if stage.index + 1 == stage.total {
        assert(reports.last() == first);
    } else {
        let next = step(stage, first)->Going_0;
        assert forall|j: int| 0 <= j < rest.len() implies (#[trigger] rest[j]).went_well(
            next.description,
        ) by {
            assert(rest[j] == reports[j + 1]);
        }
        assert(rest.last() == reports.last());
        lemma_run_completes(next, rest);
    }
}

} // verus!

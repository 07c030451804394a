//! The boundary to the outside world: serde_json for fixture parsing, the
//! Miden engine for compilation, execution, proving and verification, and the
//! wall clock for timings.
//!
//! Everything here is trusted: Verus believes the stated contracts and does
//! not look at the bodies. Each item names the outside function it relies on.
//! Every engine operation is deterministic in its inputs, so each outcome is
//! given a name that is a function of the plain values handed in: the source
//! text, the stack and advice values, and the security level.

use vstd::prelude::*;

use crate::program::MidenProgram;

use miden_air::Felt;
use miden_vm::advice::AdviceInputs;
use miden_vm::field::QuotientMap;
use miden_vm::trace::build_trace;
use miden_vm::{
    prove_sync, DefaultHost, ExecutionOptions, FastProcessor, HashFunction, ProvingOptions,
    StackInputs,
};

verus! {

/// The order of the Miden field (Goldilocks): an integer is a valid field
/// element exactly when it is below this value.
pub const FELT_ORDER: u64 = 0xFFFF_FFFF_0000_0001;

#[verifier::external_type_specification]
#[verifier::external_body]
pub struct ExJsonValue(serde_json::Value);

#[verifier::external_type_specification]
#[verifier::external_body]
pub struct ExProgram(miden_vm::Program);

#[verifier::external_type_specification]
#[verifier::external_body]
pub struct ExProgramInfo(miden_vm::ProgramInfo);

#[verifier::external_type_specification]
#[verifier::external_body]
pub struct ExFelt(miden_air::Felt);

#[verifier::external_type_specification]
#[verifier::external_body]
pub struct ExStackOutputs(miden_vm::StackOutputs);

#[verifier::external_type_specification]
#[verifier::external_body]
pub struct ExExecutionProof(miden_vm::ExecutionProof);

#[verifier::external_type_specification]
#[verifier::external_body]
pub struct ExInstant(std::time::Instant);

/// The views of a sequence of strings.
pub open spec fn views_of(ss: Seq<String>) -> Seq<Seq<char>> {
    ss.map_values(|s: String| s@)
}

/// What a fixture document holds under one field: the field may be absent,
/// present but not an array of strings, or an array of strings.
pub enum FieldShape {
    Absent,
    NotStringArray,
    Strings(Vec<String>),
}

/// The abstract value of a `FieldShape`: `None` for an absent field,
/// `Some(None)` for one that is not an array of strings, `Some(Some(strs))`
/// for the strings it holds.
pub open spec fn field_view(f: FieldShape) -> Option<Option<Seq<Seq<char>>>> {
    match f {
        FieldShape::Absent => None,
        FieldShape::NotStringArray => Some(None),
        FieldShape::Strings(v) => Some(Some(views_of(v@))),
    }
}

/// Whether serde_json accepts `s` as a JSON document; a function of the text
/// alone.
pub uninterp spec fn json_valid(s: Seq<char>) -> bool;

/// What the JSON document denoted by the text `s` holds under the field
/// `key`, read as `field_view` reads a `FieldShape`; a function of the text
/// and the key alone.
pub uninterp spec fn fixture_field(s: Seq<char>, key: Seq<char>) -> Option<
    Option<Seq<Seq<char>>>,
>;

/// What a parsed JSON document holds under the field `key`; the same reading
/// as `fixture_field`, on the document value instead of its text.
pub uninterp spec fn field_strings_of(v: serde_json::Value, key: Seq<char>) -> Option<
    Option<Seq<Seq<char>>>,
>;

/// Whether the Miden assembler turns `source` into an executable program; a
/// function of the source text alone.
pub uninterp spec fn compiles(source: Seq<char>) -> bool;

/// The output stack of executing the program compiled from `source` on the
/// given stack and advice values under the engine's stock options: `None`
/// when execution faults, else the 16 final stack values, top first.
pub uninterp spec fn run_outcome(source: Seq<char>, stack: Seq<u64>, advice: Seq<u64>) -> Option<
    Seq<u64>,
>;

/// The output stack of executing and proving the program compiled from
/// `source` on the given values at the chosen security level: `None` when
/// execution or proving fails, else the 16 final stack values, top first.
pub uninterp spec fn prove_outcome(
    source: Seq<char>,
    stack: Seq<u64>,
    advice: Seq<u64>,
    high: bool,
) -> Option<Seq<u64>>;

/// Whether the verifier accepts the proof that proving the program compiled
/// from `source` on the given values at the chosen security level produced.
pub uninterp spec fn verify_accepts(
    source: Seq<char>,
    stack: Seq<u64>,
    advice: Seq<u64>,
    high: bool,
) -> bool;

/// The trace length of a successful execution; like `run_outcome`, a
/// function of the source and the input values.
pub uninterp spec fn run_steps(source: Seq<char>, stack: Seq<u64>, advice: Seq<u64>) -> usize;

/// The diagnostic serde_json reports for a text it does not accept.
pub uninterp spec fn json_diag(s: Seq<char>) -> Seq<char>;

/// The diagnostic the assembler reports for a source it does not accept.
pub uninterp spec fn compile_diag(source: Seq<char>) -> Seq<char>;

/// The diagnostic the engine reports when execution of the program compiled
/// from `source` on the given values fails.
pub uninterp spec fn run_diag(source: Seq<char>, stack: Seq<u64>, advice: Seq<u64>) -> Seq<char>;

/// The diagnostic the engine reports when proving fails.
pub uninterp spec fn prove_diag(
    source: Seq<char>,
    stack: Seq<u64>,
    advice: Seq<u64>,
    high: bool,
) -> Seq<char>;

/// The diagnostic the verifier reports when it rejects the proof.
pub uninterp spec fn verify_diag(
    source: Seq<char>,
    stack: Seq<u64>,
    advice: Seq<u64>,
    high: bool,
) -> Seq<char>;

/// The output stack that an execution left behind, top first, as integers.
pub uninterp spec fn stack_of(o: miden_vm::StackOutputs) -> Seq<u64>;

/// Relies on serde_json::from_str::<Value>: parsing is deterministic in the
/// text, succeeds exactly on well-formed JSON documents, and the parsed
/// document's fields are a function of the text.
#[verifier::external_body]
pub fn json_parse(s: &str) -> (r: Result<serde_json::Value, String>)
    ensures
        r is Ok <==> json_valid(s@),
        r matches Ok(v) ==> forall|k: Seq<char>|
            field_strings_of(v, k) == #[trigger] fixture_field(s@, k),
        r matches Err(d) ==> d@ == json_diag(s@),
{
    serde_json::from_str::<serde_json::Value>(s).map_err(|e| e.to_string())
}

/// Relies on serde_json::Value::get, Value::as_array and Value::as_str: reads
/// the named field of a document as an array of strings, telling the absent,
/// wrongly-shaped and string-array cases apart.
#[verifier::external_body]
pub fn json_field_strings(v: &serde_json::Value, key: &str) -> (r: FieldShape)
    ensures
        field_view(r) == field_strings_of(*v, key@),
{
    match v.get(key) {
        None => FieldShape::Absent,
        Some(field) => match field.as_array() {
            None => FieldShape::NotStringArray,
            Some(items) => {
                match items.iter().map(|x| x.as_str().map(str::to_string)).collect::<Option<
                    Vec<String>,
                >>() {
                    None => FieldShape::NotStringArray,
                    Some(strs) => FieldShape::Strings(strs),
                }
            },
        },
    }
}

/// Relies on miden_vm::Assembler::assemble_program: whether assembly of a
/// default-configured assembler succeeds is a function of the source text
/// alone; the error carries the assembler's diagnostic.
#[verifier::external_body]
pub fn assemble_source(source: &str) -> (r: Result<miden_vm::Program, String>)
    ensures
        r is Ok <==> compiles(source@),
        r matches Err(d) ==> d@ == compile_diag(source@),
{
    miden_vm::Assembler::default().assemble_program(source).map_err(|e| e.to_string())
}

/// Relies on miden_vm::ProgramInfo::from: the public metadata descriptor of a
/// compiled program, needed later for verification.
#[verifier::external_body]
pub fn program_info_of(p: &miden_vm::Program) -> (r: miden_vm::ProgramInfo) {
    miden_vm::ProgramInfo::from(p.clone())
}

/// The artifacts of one successful proving run, together with a record of
/// what was proven: the source, the input values and the security level.
/// Built only by the proving calls below, so a value of this type always
/// carries the artifacts that proving produced for the recorded arguments.
pub struct ProvenRun {
    pub(crate) outputs: miden_vm::StackOutputs,
    pub(crate) proof: miden_vm::ExecutionProof,
    pub(crate) source: String,
    pub(crate) stack_values: Vec<u64>,
    pub(crate) advice_values: Vec<u64>,
    pub(crate) high: bool,
}

impl ProvenRun {
    /// The output stack the proven execution left behind.
    pub closed spec fn output_view(&self) -> Seq<u64> {
        stack_of(self.outputs)
    }

    /// The source text the proven program was compiled from.
    pub closed spec fn source_view(&self) -> Seq<char> {
        self.source@
    }

    /// The stack values the proven execution started from.
    pub closed spec fn stack_view(&self) -> Seq<u64> {
        self.stack_values@
    }

    /// The advice values the proven execution consumed.
    pub closed spec fn advice_view(&self) -> Seq<u64> {
        self.advice_values@
    }

    /// The security level the proof was made at.
    pub closed spec fn high_level(&self) -> bool {
        self.high
    }
}

/// Relies on FastProcessor::execute_trace_inputs_sync and build_trace with a
/// fresh DefaultHost and stock ExecutionOptions: runs the compiled program
/// and hands back its output stack and the execution trace length. The
/// outcome is a function of the source the program was compiled from and the
/// input values; `None` of `run_outcome` covers both the processor rejecting
/// the inputs (an advice stack beyond its limit) and an execution fault. The
/// output stack always holds 16 elements.
#[verifier::external_body]
pub fn run_example(prog: &MidenProgram, stack_values: &Vec<u64>, advice_values: &Vec<u64>) -> (r:
    Result<(miden_vm::StackOutputs, usize), String>)
    requires
        prog.is_compiled(),
        stack_values@.len() <= 16,
        forall|i: int| 0 <= i < stack_values@.len() ==> stack_values@[i] < FELT_ORDER,
        forall|i: int| 0 <= i < advice_values@.len() ==> advice_values@[i] < FELT_ORDER,
    ensures
        r is Ok <==> run_outcome(prog.source_view(), stack_values@, advice_values@) is Some,
        r matches Ok(p) ==> (run_outcome(prog.source_view(), stack_values@, advice_values@)
            matches Some(s) && (stack_of(p.0) == s && (s.len() == 16 && p.1 == run_steps(
            prog.source_view(),
            stack_values@,
            advice_values@,
        )))),
        r matches Err(d) ==> d@ == run_diag(prog.source_view(), stack_values@, advice_values@),
{
    let felts: Vec<Felt> =
        stack_values.iter().map(|v| Felt::from_canonical_checked(*v).unwrap()).collect();
    let stack = StackInputs::new(&felts).unwrap();
    let advice =
        AdviceInputs::default().with_stack_values(advice_values.iter().copied()).unwrap();
    let mut host = DefaultHost::default();
    let processor = FastProcessor::new_with_options(stack, advice, ExecutionOptions::default())
        .map_err(|e| e.to_string())?;
    let inputs = processor
        .execute_trace_inputs_sync(prog.program.as_ref().unwrap(), &mut host)
        .map_err(|e| e.to_string())?;
    let trace = build_trace(inputs).map_err(|e| e.to_string())?;
    Ok((trace.stack_outputs().clone(), trace.get_trace_len()))
}

/// Relies on miden_vm::prove_sync with a fresh DefaultHost, stock
/// ExecutionOptions and the standard (96-bit, BLAKE3) proving configuration:
/// executes and proves the compiled program; the outcome is a function of the
/// source and the input values; the output stack always holds 16 elements.
#[verifier::external_body]
pub fn prove_example_standard(
    prog: &MidenProgram,
    stack_values: &Vec<u64>,
    advice_values: &Vec<u64>,
) -> (r: Result<ProvenRun, String>)
    requires
        prog.is_compiled(),
        stack_values@.len() <= 16,
        forall|i: int| 0 <= i < stack_values@.len() ==> stack_values@[i] < FELT_ORDER,
        forall|i: int| 0 <= i < advice_values@.len() ==> advice_values@[i] < FELT_ORDER,
    ensures
        r is Ok <==> prove_outcome(prog.source_view(), stack_values@, advice_values@, false)
            is Some,
        r matches Ok(run) ==> (prove_outcome(prog.source_view(), stack_values@, advice_values@,
        false) matches Some(s) && (run.output_view() == s && (s.len() == 16 && (run.source_view()
            == prog.source_view() && (run.stack_view() == stack_values@ && (run.advice_view()
            == advice_values@ && run.high_level() == false)))))),
        r matches Err(d) ==> d@ == prove_diag(prog.source_view(), stack_values@, advice_values@,
        false),
{
    let felts: Vec<Felt> =
        stack_values.iter().map(|v| Felt::from_canonical_checked(*v).unwrap()).collect();
    let stack = StackInputs::new(&felts).unwrap();
    let advice =
        AdviceInputs::default().with_stack_values(advice_values.iter().copied()).unwrap();
    let mut host = DefaultHost::default();
    let popts = ProvingOptions::with_96_bit_security(HashFunction::Blake3_256);
    let program = prog.program.as_ref().unwrap();
    prove_sync(program, stack, advice, &mut host, ExecutionOptions::default(), popts)
        .map(|(outputs, proof)| ProvenRun {
            outputs, proof, source: prog.source.clone(),
            stack_values: stack_values.clone(), advice_values: advice_values.clone(), high: false,
        })
        .map_err(|e| e.to_string())
}

/// Relies on miden_vm::prove_sync exactly as the standard variant does, but
/// under the higher-security proving configuration (the RPO hash); at this
/// engine version the STARK parameters themselves are fixed, so the level
/// selects the hash function only.
#[verifier::external_body]
pub fn prove_example_high(
    prog: &MidenProgram,
    stack_values: &Vec<u64>,
    advice_values: &Vec<u64>,
) -> (r: Result<ProvenRun, String>)
    requires
        prog.is_compiled(),
        stack_values@.len() <= 16,
        forall|i: int| 0 <= i < stack_values@.len() ==> stack_values@[i] < FELT_ORDER,
        forall|i: int| 0 <= i < advice_values@.len() ==> advice_values@[i] < FELT_ORDER,
    ensures
        r is Ok <==> prove_outcome(prog.source_view(), stack_values@, advice_values@, true)
            is Some,
        r matches Ok(run) ==> (prove_outcome(prog.source_view(), stack_values@, advice_values@,
        true) matches Some(s) && (run.output_view() == s && (s.len() == 16 && (run.source_view()
            == prog.source_view() && (run.stack_view() == stack_values@ && (run.advice_view()
            == advice_values@ && run.high_level() == true)))))),
        r matches Err(d) ==> d@ == prove_diag(prog.source_view(), stack_values@, advice_values@,
        true),
{
    let felts: Vec<Felt> =
        stack_values.iter().map(|v| Felt::from_canonical_checked(*v).unwrap()).collect();
    let stack = StackInputs::new(&felts).unwrap();
    let advice =
        AdviceInputs::default().with_stack_values(advice_values.iter().copied()).unwrap();
    let mut host = DefaultHost::default();
    let popts = ProvingOptions::new(HashFunction::Rpo256);
    let program = prog.program.as_ref().unwrap();
    prove_sync(program, stack, advice, &mut host, ExecutionOptions::default(), popts)
        .map(|(outputs, proof)| ProvenRun {
            outputs, proof, source: prog.source.clone(),
            stack_values: stack_values.clone(), advice_values: advice_values.clone(), high: true,
        })
        .map_err(|e| e.to_string())
}

/// Relies on miden_vm::verify: checks the artifacts of the proving run
/// against the program's info and the recorded inputs. A `ProvenRun` is
/// built only by the proving calls above and records what it proved, and
/// verification is deterministic in the program info, inputs, outputs and
/// proof, so the verdict is a function of the recorded plain values.
#[verifier::external_body]
pub fn verify_example(prog: &MidenProgram, run: ProvenRun) -> (r: Result<u32, String>)
    requires
        prog.is_compiled(),
        run.source_view() == prog.source_view(),
        run.stack_view().len() <= 16,
        forall|i: int| 0 <= i < run.stack_view().len() ==> run.stack_view()[i] < FELT_ORDER,
    ensures
        r is Ok <==> verify_accepts(
            run.source_view(),
            run.stack_view(),
            run.advice_view(),
            run.high_level(),
        ),
        r matches Err(d) ==> d@ == verify_diag(
            run.source_view(),
            run.stack_view(),
            run.advice_view(),
            run.high_level(),
        ),
{
    let felts: Vec<Felt> =
        run.stack_values.iter().map(|v| Felt::from_canonical_checked(*v).unwrap()).collect();
    let stack = StackInputs::new(&felts).unwrap();
    let info = prog.program_info.as_ref().unwrap().clone();
    miden_vm::verify(info, stack, run.outputs, run.proof).map_err(|e| e.to_string())
}

/// Relies on StackOutputs::get_num_elements and Felt::as_canonical_u64: the
/// first `min(n, 16)` values of the proven run's output stack, as integers.
#[verifier::external_body]
pub fn proven_stack_truncated(run: &ProvenRun, n: usize) -> (r: Vec<u64>)
    ensures
        r@ == run.output_view().take(
            if n <= run.output_view().len() {
                n as int
            } else {
                run.output_view().len() as int
            },
        ),
{
    run.outputs.get_num_elements(n).iter().map(|f| f.as_canonical_u64()).collect()
}

/// Relies on std::time::Instant::now.
#[verifier::external_body]
pub fn clock_now() -> (r: std::time::Instant) {
    std::time::Instant::now()
}

/// Relies on std::time::Instant::elapsed.
#[verifier::external_body]
pub fn elapsed_since(start: &std::time::Instant) -> (r: std::time::Duration) {
    start.elapsed()
}

/// Relies on std::time::Duration::as_millis.
#[verifier::external_body]
pub fn duration_millis(d: &std::time::Duration) -> (r: u128) {
    d.as_millis()
}

} // verus!

//! The example runner: drives one example through the engine's pipelines.
//!
//! Test mode checks files, fixture shape, compilation and execution;
//! benchmark mode additionally proves and verifies, timing every phase.
//! Printing is left to the caller: the pipelines return the lines they would
//! have printed as structured events, and in CI mode they return none.

use vstd::prelude::*;

use crate::engine;
use crate::inputs;
use crate::inputs::InputsError;
use crate::program::MidenProgram;

verus! {

/// What the harness found when it went to read a file.
pub enum FileState {
    Missing,
    Unreadable,
    Content(String),
}

/// One example: its name and what was read from its two companion files.
pub struct ExampleEntry {
    pub name: String,
    pub masm: FileState,
    pub inputs: FileState,
}

/// The first failing phase of a pipeline: the file errors name the example,
/// the later phases carry the engine's diagnostic.
#[derive(Debug)]
pub enum RunError {
    MasmNotFound(String),
    InputsNotFound(String),
    MasmUnreadable(String),
    InputsUnreadable(String),
    InvalidJson(String),
    InputShape(String),
    Compilation(String),
    Execution(String),
    Proving(String),
    Verification(String),
}

impl RunError {
    /// The descriptive message: a fixed prefix naming the phase, followed by
    /// the example's name or the underlying diagnostic.
    pub open spec fn message_spec(&self) -> Seq<char> {
        match self {
            RunError::MasmNotFound(n) => "example file not found: "@ + n@,
            RunError::InputsNotFound(n) => "inputs file not found: "@ + n@,
            RunError::MasmUnreadable(n) => "failed to read .masm file: "@ + n@,
            RunError::InputsUnreadable(n) => "failed to read .inputs file: "@ + n@,
            RunError::InvalidJson(d) => "invalid JSON in .inputs file: "@ + d@,
            RunError::InputShape(d) => "failed to deserialize inputs: "@ + d@,
            RunError::Compilation(d) => "compilation failed: "@ + d@,
            RunError::Execution(d) => "execution failed: "@ + d@,
            RunError::Proving(d) => "proving failed: "@ + d@,
            RunError::Verification(d) => "program failed verification: "@ + d@,
        }
    }

    pub fn message(&self) -> (r: String)
        ensures
            r@ == self.message_spec(),
    {
        match self {
            RunError::MasmNotFound(n) => String::from_str("example file not found: ").concat(
                n.as_str(),
            ),
            RunError::InputsNotFound(n) => String::from_str("inputs file not found: ").concat(
                n.as_str(),
            ),
            RunError::MasmUnreadable(n) => String::from_str("failed to read .masm file: ").concat(
                n.as_str(),
            ),
            RunError::InputsUnreadable(n) => String::from_str("failed to read .inputs file: ")
                .concat(n.as_str()),
            RunError::InvalidJson(d) => String::from_str("invalid JSON in .inputs file: ").concat(
                d.as_str(),
            ),
            RunError::InputShape(d) => String::from_str("failed to deserialize inputs: ").concat(
                d.as_str(),
            ),
            RunError::Compilation(d) => String::from_str("compilation failed: ").concat(d.as_str()),
            RunError::Execution(d) => String::from_str("execution failed: ").concat(d.as_str()),
            RunError::Proving(d) => String::from_str("proving failed: ").concat(d.as_str()),
            RunError::Verification(d) => String::from_str("program failed verification: ").concat(
                d.as_str(),
            ),
        }
    }
}

/// Lifts a fixture error into the runner's error space, keeping the carried
/// diagnostic.
fn lift_inputs_error(e: InputsError) -> (r: RunError)
    ensures
        r is InvalidJson <==> e is Json,
        r is InputShape <==> e is Shape,
        e matches InputsError::Json(d) ==> (r matches RunError::InvalidJson(d2) && d2 == d),
        e matches InputsError::Shape(d) ==> (r matches RunError::InputShape(d2) && d2 == d),
{
    match e {
        InputsError::Json(d) => RunError::InvalidJson(d),
        InputsError::Shape(d) => RunError::InputShape(d),
    }
}

/// Both companion files were read.
pub open spec fn files_readable(e: ExampleEntry) -> bool {
    e.masm is Content && e.inputs is Content
}

/// The example's test pipeline reaches its end: both files are readable, the
/// fixture is accepted, the source compiles, and execution completes without
/// an engine fault.
pub open spec fn example_passes(e: ExampleEntry) -> bool {
    e.masm matches FileState::Content(mt) && (e.inputs matches FileState::Content(it) && (
    inputs::fixture_ok(it@) && (engine::compiles(mt@) && engine::run_outcome(
        mt@,
        inputs::fixture_stack(it@),
        inputs::fixture_advice(it@),
    ) is Some)))
}

/// The message of the error the test pipeline returns for a failing entry:
/// the first failing phase, in pipeline order, with its diagnostic.
pub open spec fn failure_message(e: ExampleEntry) -> Seq<char> {
    if e.masm is Missing {
        "example file not found: "@ + e.name@
    } else if e.inputs is Missing {
        "inputs file not found: "@ + e.name@
    } else if e.masm is Unreadable {
        "failed to read .masm file: "@ + e.name@
    } else if e.inputs is Unreadable {
        "failed to read .inputs file: "@ + e.name@
    } else {
        match e.masm {
            FileState::Content(mt) => match e.inputs {
                FileState::Content(it) => if !engine::json_valid(it@) {
                    "invalid JSON in .inputs file: "@ + engine::json_diag(it@)
                } else if !inputs::fixture_ok(it@) {
                    "failed to deserialize inputs: "@ + inputs::shape_message(it@)
                } else if !engine::compiles(mt@) {
                    "compilation failed: "@ + engine::compile_diag(mt@)
                } else {
                    "execution failed: "@ + engine::run_diag(
                        mt@,
                        inputs::fixture_stack(it@),
                        inputs::fixture_advice(it@),
                    )
                },
                _ => seq![],
            },
            _ => seq![],
        }
    }
}

/// A checkpoint that the test pipeline would print, in the order reached;
/// the execution checkpoint carries the trace step count.
pub enum TestNote {
    Testing,
    MasmRead,
    InputsValid,
    CompilationOk,
    ExecutionOk(usize),
    Passed,
}

/// The checkpoints the test pipeline emits, as a function of the entry and
/// the flags: none in CI mode, else one per stage reached, the optional ones
/// only under the verbosity flag.
pub open spec fn expected_test_notes(e: ExampleEntry, verbose: bool, ci: bool) -> Seq<TestNote> {
    if ci {
        seq![]
    } else {
        let n0 = seq![TestNote::Testing];
        if e.masm is Missing || e.inputs is Missing || e.masm is Unreadable {
            n0
        } else {
            let n1 = if verbose {
                n0.push(TestNote::MasmRead)
            } else {
                n0
            };
            match e.masm {
                FileState::Content(mt) => match e.inputs {
                    FileState::Content(it) => if !engine::json_valid(it@) || !inputs::fixture_ok(
                        it@,
                    ) {
                        n1
                    } else {
                        let n2 = if verbose {
                            n1.push(TestNote::InputsValid)
                        } else {
                            n1
                        };
                        if !engine::compiles(mt@) {
                            n2
                        } else {
                            let n3 = n2.push(TestNote::CompilationOk);
                            if engine::run_outcome(
                                mt@,
                                inputs::fixture_stack(it@),
                                inputs::fixture_advice(it@),
                            ) is None {
                                n3
                            } else {
                                let n4 = if verbose {
                                    n3.push(
                                        TestNote::ExecutionOk(
                                            engine::run_steps(
                                                mt@,
                                                inputs::fixture_stack(it@),
                                                inputs::fixture_advice(it@),
                                            ),
                                        ),
                                    )
                                } else {
                                    n3
                                };
                                n4.push(TestNote::Passed)
                            }
                        }
                    },
                    _ => n1,
                },
                _ => n0,
            }
        }
    }
}

/// Runs the test pipeline over one example: file presence, fixture parse,
/// compilation, execution. Proving and verification are deliberately
/// omitted: a successful execution is what makes an example pass.
///
/// The outcome is a function of the entry alone (in particular, it does not
/// depend on `verbose` or `ci`): the pipeline succeeds exactly when the
/// example passes, and otherwise returns the error of the first failing
/// phase. In CI mode no checkpoint is emitted at all.
pub fn test_example(entry: &ExampleEntry, verbose: bool, ci: bool) -> (r: (
    Result<(), RunError>,
    Vec<TestNote>,
))
    ensures
        r.1@ == expected_test_notes(*entry, verbose, ci),
        r.0 is Ok <==> example_passes(*entry),
        r.0 matches Err(err) ==> err.message_spec() == failure_message(*entry),
        entry.masm is Missing ==> (r.0 matches Err(e) && e is MasmNotFound),
        !(entry.masm is Missing) && entry.inputs is Missing ==> (r.0 matches Err(e)
            && e is InputsNotFound),
        entry.masm is Unreadable && !(entry.inputs is Missing) ==> (r.0 matches Err(e)
            && e is MasmUnreadable),
        entry.masm is Content && entry.inputs is Unreadable ==> (r.0 matches Err(e)
            && e is InputsUnreadable),
        (r.0 matches Err(e) && e is InvalidJson) <==> (files_readable(*entry) && (
        entry.inputs matches FileState::Content(it) && !engine::json_valid(it@))),
        (r.0 matches Err(e) && e is InputShape) <==> (files_readable(*entry) && (
        entry.inputs matches FileState::Content(it) && (engine::json_valid(it@)
            && !inputs::fixture_ok(it@)))),
        (r.0 matches Err(e) && e is Compilation) <==> (entry.masm matches FileState::Content(mt)
            && (entry.inputs matches FileState::Content(it) && (inputs::fixture_ok(it@)
            && !engine::compiles(mt@)))),
        (r.0 matches Err(e) && e is Execution) <==> (entry.masm matches FileState::Content(mt) && (
        entry.inputs matches FileState::Content(it) && (inputs::fixture_ok(it@) && (
        engine::compiles(mt@) && engine::run_outcome(
            mt@,
            inputs::fixture_stack(it@),
            inputs::fixture_advice(it@),
        ) is None)))),
{
    let mut notes: Vec<TestNote> = Vec::new();
    if !ci {
        notes.push(TestNote::Testing);
    }
    if matches!(&entry.masm, FileState::Missing) {
        return (Err(RunError::MasmNotFound(entry.name.clone())), notes);
    }
    if matches!(&entry.inputs, FileState::Missing) {
        return (Err(RunError::InputsNotFound(entry.name.clone())), notes);
    }
    let masm_text = match &entry.masm {
        FileState::Content(s) => s,
        _ => { return (Err(RunError::MasmUnreadable(entry.name.clone())), notes); },
    };
    if verbose && !ci {
        notes.push(TestNote::MasmRead);
    }
    let inputs_text = match &entry.inputs {
        FileState::Content(s) => s,
        _ => { return (Err(RunError::InputsUnreadable(entry.name.clone())), notes); },
    };
    let parsed = match inputs::deserialize_inputs(inputs_text.as_str()) {
        Ok(p) => p,
        Err(e) => { return (Err(lift_inputs_error(e)), notes); },
    };
    if verbose && !ci {
        notes.push(TestNote::InputsValid);
    }
    let mut prog = MidenProgram::new(masm_text.as_str());
    match prog.compile_program() {
        Ok(()) => {},
        Err(diagnostic) => { return (Err(RunError::Compilation(diagnostic)), notes); },
    }
    if !ci {
        notes.push(TestNote::CompilationOk);
    }
    let steps = match engine::run_example(&prog, &parsed.stack_values, &parsed.advice_values) {
        Ok((_outputs, steps)) => steps,
        Err(diagnostic) => { return (Err(RunError::Execution(diagnostic)), notes); },
    };
    if verbose && !ci {
        notes.push(TestNote::ExecutionOk(steps));
    }
    if !ci {
        notes.push(TestNote::Passed);
    }
    (Ok(()), notes)
}

/// The proof security level of a benchmark run: the standard configuration,
/// or the higher-security one.
pub enum SecurityLevel {
    Standard,
    High,
}

/// Whether the level is the higher-security one.
pub open spec fn is_high(s: SecurityLevel) -> bool {
    s is High
}

/// A report that the benchmark pipeline emits, in the order produced; times
/// are elapsed wall-clock milliseconds of the phase just finished, and the
/// execution report also carries the trace step count.
pub enum BenchEvent {
    Header,
    CompileMs(u128),
    ExecuteMs(u128, usize),
    ProveMs(u128),
    VerifyMs(u128),
    ResultStack(Vec<u64>),
}

/// The position a benchmark report kind has in a complete run.
pub open spec fn bench_kind(e: BenchEvent) -> int {
    match e {
        BenchEvent::Header => 0,
        BenchEvent::CompileMs(_) => 1,
        BenchEvent::ExecuteMs(..) => 2,
        BenchEvent::ProveMs(_) => 3,
        BenchEvent::VerifyMs(_) => 4,
        BenchEvent::ResultStack(_) => 5,
    }
}

/// The reports of a run appear in pipeline order, each phase at most once:
/// header, compilation, execution, proving, verification, result.
pub open spec fn bench_ordered(s: Seq<BenchEvent>) -> bool {
    forall|i: int| 0 <= i < s.len() ==> bench_kind(#[trigger] s[i]) == i
}

/// The message of the error the benchmark pipeline returns: the test
/// pipeline's message for its phases, else the proving or verification
/// diagnostic.
pub open spec fn bench_failure_message(e: ExampleEntry, high: bool) -> Seq<char> {
    if !example_passes(e) {
        failure_message(e)
    } else {
        match e.masm {
            FileState::Content(mt) => match e.inputs {
                FileState::Content(it) => if engine::prove_outcome(
                    mt@,
                    inputs::fixture_stack(it@),
                    inputs::fixture_advice(it@),
                    high,
                ) is None {
                    "proving failed: "@ + engine::prove_diag(
                        mt@,
                        inputs::fixture_stack(it@),
                        inputs::fixture_advice(it@),
                        high,
                    )
                } else {
                    "program failed verification: "@ + engine::verify_diag(
                        mt@,
                        inputs::fixture_stack(it@),
                        inputs::fixture_advice(it@),
                        high,
                    )
                },
                _ => seq![],
            },
            _ => seq![],
        }
    }
}

/// The example's benchmark pipeline reaches its end at the given security
/// level: it passes the test pipeline, proving succeeds, and the verifier
/// accepts the proof.
pub open spec fn benchmark_passes(e: ExampleEntry, high: bool) -> bool {
    &&& example_passes(e)
    &&& e.masm matches FileState::Content(mt) && (e.inputs matches FileState::Content(it) && (
    engine::prove_outcome(mt@, inputs::fixture_stack(it@), inputs::fixture_advice(it@), high)
        is Some && engine::verify_accepts(
        mt@,
        inputs::fixture_stack(it@),
        inputs::fixture_advice(it@),
        high,
    )))
}

/// Runs the full benchmark pipeline over one example: compile, execute,
/// prove, verify, each phase timed, the reports of finished phases kept even
/// when a later phase fails. The outcome is a function of the entry, the
/// security level and the output length alone: the pipeline succeeds exactly
/// when the example passes, proves and verifies, and then there are exactly
/// six reports, in pipeline order, ending in the first `output_len` values
/// (at most the 16 the VM exposes) of the proven run's output stack.
pub fn benchmark_example(entry: &ExampleEntry, security: SecurityLevel, output_len: usize) -> (r: (
    Result<(), RunError>,
    Vec<BenchEvent>,
))
    ensures
        bench_ordered(r.1@),
        r.1@.len() <= 6,
        r.0 is Ok <==> benchmark_passes(*entry, is_high(security)),
        r.0 matches Err(err) ==> err.message_spec() == bench_failure_message(
            *entry,
            is_high(security),
        ),
        r.0 is Ok ==> r.1@.len() == 6,
        r.1@.len() >= 3 ==> (entry.masm matches FileState::Content(mt) && (
        entry.inputs matches FileState::Content(it) && (r.1@[2] matches BenchEvent::ExecuteMs(
            ms,
            st,
        ) && st == engine::run_steps(
            mt@,
            inputs::fixture_stack(it@),
            inputs::fixture_advice(it@),
        )))),
        r.0 is Ok ==> (entry.masm matches FileState::Content(mt) && (
        entry.inputs matches FileState::Content(it) && (r.1@[5] matches BenchEvent::ResultStack(v)
            && v@ == (engine::prove_outcome(
            mt@,
            inputs::fixture_stack(it@),
            inputs::fixture_advice(it@),
            is_high(security),
        )->0).take(
            if output_len <= 16 {
                output_len as int
            } else {
                16
            },
        )))),
        entry.masm is Missing ==> (r.0 matches Err(e) && e is MasmNotFound),
        !(entry.masm is Missing) && entry.inputs is Missing ==> (r.0 matches Err(e)
            && e is InputsNotFound),
        entry.masm is Unreadable && !(entry.inputs is Missing) ==> (r.0 matches Err(e)
            && e is MasmUnreadable),
        entry.masm is Content && entry.inputs is Unreadable ==> (r.0 matches Err(e)
            && e is InputsUnreadable),
        (r.0 matches Err(e) && e is InvalidJson) <==> (files_readable(*entry) && (
        entry.inputs matches FileState::Content(it) && !engine::json_valid(it@))),
        (r.0 matches Err(e) && e is InputShape) <==> (files_readable(*entry) && (
        entry.inputs matches FileState::Content(it) && (engine::json_valid(it@)
            && !inputs::fixture_ok(it@)))),
        (r.0 matches Err(e) && e is Compilation) <==> (entry.masm matches FileState::Content(mt)
            && (entry.inputs matches FileState::Content(it) && (inputs::fixture_ok(it@)
            && !engine::compiles(mt@)))),
        (r.0 matches Err(e) && e is Execution) <==> (example_passes(*entry) == false && (
        entry.masm matches FileState::Content(mt) && (entry.inputs matches FileState::Content(it)
            && (inputs::fixture_ok(it@) && engine::compiles(mt@))))),
        (r.0 matches Err(e) && e is Proving) <==> (example_passes(*entry) && (
        entry.masm matches FileState::Content(mt) && (entry.inputs matches FileState::Content(it)
            && engine::prove_outcome(
            mt@,
            inputs::fixture_stack(it@),
            inputs::fixture_advice(it@),
            is_high(security),
        ) is None))),
        (r.0 matches Err(e) && e is Verification) <==> (example_passes(*entry) && (
        entry.masm matches FileState::Content(mt) && (entry.inputs matches FileState::Content(it)
            && (engine::prove_outcome(
            mt@,
            inputs::fixture_stack(it@),
            inputs::fixture_advice(it@),
            is_high(security),
        ) is Some && !engine::verify_accepts(
            mt@,
            inputs::fixture_stack(it@),
            inputs::fixture_advice(it@),
            is_high(security),
        ))))),
        r.0 matches Err(e) ==> r.1@.len() == (if e is Execution {
            2int
        } else if e is Proving {
            3int
        } else if e is Verification {
            4int
        } else {
            1int
        }),
{
    let mut events: Vec<BenchEvent> = Vec::new();
    events.push(BenchEvent::Header);
    if matches!(&entry.masm, FileState::Missing) {
        return (Err(RunError::MasmNotFound(entry.name.clone())), events);
    }
    if matches!(&entry.inputs, FileState::Missing) {
        return (Err(RunError::InputsNotFound(entry.name.clone())), events);
    }
    let masm_text = match &entry.masm {
        FileState::Content(s) => s,
        _ => { return (Err(RunError::MasmUnreadable(entry.name.clone())), events); },
    };
    let inputs_text = match &entry.inputs {
        FileState::Content(s) => s,
        _ => { return (Err(RunError::InputsUnreadable(entry.name.clone())), events); },
    };
    let parsed = match inputs::deserialize_inputs(inputs_text.as_str()) {
        Ok(p) => p,
        Err(e) => { return (Err(lift_inputs_error(e)), events); },
    };

    let compile_start = engine::clock_now();
    let mut prog = MidenProgram::new(masm_text.as_str());
    match prog.compile_program() {
        Ok(()) => {},
        Err(diagnostic) => { return (Err(RunError::Compilation(diagnostic)), events); },
    }
    events.push(
        BenchEvent::CompileMs(engine::duration_millis(&engine::elapsed_since(&compile_start))),
    );

    let execute_start = engine::clock_now();
    let steps = match engine::run_example(&prog, &parsed.stack_values, &parsed.advice_values) {
        Ok((_outputs, steps)) => steps,
        Err(diagnostic) => { return (Err(RunError::Execution(diagnostic)), events); },
    };
    events.push(
        BenchEvent::ExecuteMs(
            engine::duration_millis(&engine::elapsed_since(&execute_start)),
            steps,
        ),
    );

    let high = matches!(&security, SecurityLevel::High);
    let prove_start = engine::clock_now();
    let proven = if high {
        engine::prove_example_high(&prog, &parsed.stack_values, &parsed.advice_values)
    } else {
        engine::prove_example_standard(&prog, &parsed.stack_values, &parsed.advice_values)
    };
    let run = match proven {
        Ok(run) => run,
        Err(diagnostic) => { return (Err(RunError::Proving(diagnostic)), events); },
    };
    events.push(BenchEvent::ProveMs(engine::duration_millis(&engine::elapsed_since(&prove_start))));

    let result_stack = engine::proven_stack_truncated(&run, output_len);
    let verify_start = engine::clock_now();
    match engine::verify_example(&prog, run) {
        Ok(_) => {},
        Err(diagnostic) => { return (Err(RunError::Verification(diagnostic)), events); },
    }
    events.push(
        BenchEvent::VerifyMs(engine::duration_millis(&engine::elapsed_since(&verify_start))),
    );

    events.push(BenchEvent::ResultStack(result_stack));
    (Ok(()), events)
}

} // verus!

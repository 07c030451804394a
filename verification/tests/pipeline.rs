use benchmarking_cli::inputs::{deserialize_inputs, InputsError};
use benchmarking_cli::program::MidenProgram;
use benchmarking_cli::runner::{
    benchmark_example, test_example, BenchEvent, ExampleEntry, FileState, RunError, SecurityLevel,
    TestNote,
};
use benchmarking_cli::scanner::{
    test_all_examples, validate_examples_directory, ScanNote, ValidationIssue,
};
use benchmarking_cli::text::parse_u64_dec;

const GOOD_MASM: &str = "begin push.3 add end";
const GOOD_INPUTS: &str = "{\"operand_stack\": [\"5\"]}";

fn entry(name: &str, masm: FileState, inputs: FileState) -> ExampleEntry {
    ExampleEntry {
        name: name.to_string(),
        masm,
        inputs,
    }
}

fn good_entry(name: &str) -> ExampleEntry {
    entry(
        name,
        FileState::Content(GOOD_MASM.to_string()),
        FileState::Content(GOOD_INPUTS.to_string()),
    )
}

#[test]
fn parse_decimal_values() {
    assert_eq!(parse_u64_dec("0"), Some(0));
    assert_eq!(parse_u64_dec("123"), Some(123));
    assert_eq!(parse_u64_dec("18446744073709551615"), Some(u64::MAX));
}

#[test]
fn parse_decimal_rejects() {
    assert_eq!(parse_u64_dec(""), None);
    assert_eq!(parse_u64_dec("12a"), None);
    assert_eq!(parse_u64_dec("-3"), None);
    assert_eq!(parse_u64_dec("18446744073709551616"), None);
}

#[test]
fn deserialize_good_fixture() {
    let parsed =
        deserialize_inputs("{\"operand_stack\": [\"5\", \"7\"], \"advice_stack\": [\"9\"]}")
            .unwrap();
    assert_eq!(parsed.stack_values, vec![5, 7]);
    assert_eq!(parsed.advice_values, vec![9]);
}

#[test]
fn deserialize_without_advice() {
    let parsed = deserialize_inputs("{\"operand_stack\": []}").unwrap();
    assert_eq!(parsed.stack_values, Vec::<u64>::new());
    assert_eq!(parsed.advice_values, Vec::<u64>::new());
}

#[test]
fn deserialize_rejects_malformed_json() {
    assert!(matches!(
        deserialize_inputs("{\"operand_stack\": ["),
        Err(InputsError::Json(_))
    ));
    assert!(matches!(
        deserialize_inputs("not json at all"),
        Err(InputsError::Json(_))
    ));
}

#[test]
fn deserialize_rejects_bad_shape() {
    assert!(matches!(
        deserialize_inputs("{}"),
        Err(InputsError::Shape(_))
    ));
    assert!(matches!(
        deserialize_inputs("{\"operand_stack\": \"5\"}"),
        Err(InputsError::Shape(_))
    ));
    assert!(matches!(
        deserialize_inputs("{\"operand_stack\": [5]}"),
        Err(InputsError::Shape(_))
    ));
    assert!(matches!(
        deserialize_inputs("{\"operand_stack\": [], \"advice_stack\": 5}"),
        Err(InputsError::Shape(_))
    ));
    // The Goldilocks field order itself is one past the largest valid value.
    assert!(matches!(
        deserialize_inputs("{\"operand_stack\": [\"18446744069414584321\"]}"),
        Err(InputsError::Shape(_))
    ));
    let too_many: Vec<String> = (0..17).map(|i| format!("\"{i}\"")).collect();
    let fixture = format!("{{\"operand_stack\": [{}]}}", too_many.join(", "));
    assert!(matches!(
        deserialize_inputs(&fixture),
        Err(InputsError::Shape(_))
    ));
}

#[test]
fn compile_program_succeeds_on_good_source() {
    let mut prog = MidenProgram::new(GOOD_MASM);
    assert!(prog.compile_program().is_ok());
    assert!(prog.has_compiled_program());
}

#[test]
fn compile_program_fails_on_bad_source() {
    let mut prog = MidenProgram::new("this is not a miden program");
    assert!(prog.compile_program().is_err());
    assert!(!prog.has_compiled_program());
}

#[test]
fn test_mode_passes_good_example() {
    let e = good_entry("adder");
    let (outcome, notes) = test_example(&e, false, false);
    assert!(outcome.is_ok());
    assert!(!notes.is_empty());
}

#[test]
fn test_mode_reports_missing_files() {
    let e = entry("gone", FileState::Missing, FileState::Missing);
    let (outcome, _) = test_example(&e, false, false);
    assert!(matches!(outcome, Err(RunError::MasmNotFound(_))));
    let e = entry(
        "half",
        FileState::Content(GOOD_MASM.to_string()),
        FileState::Missing,
    );
    let (outcome, _) = test_example(&e, false, false);
    assert!(matches!(outcome, Err(RunError::InputsNotFound(_))));
}

#[test]
fn fixture_is_checked_before_compilation() {
    // Both the program and the fixture are broken: the fixture error wins,
    // so compilation is never attempted on an example with a broken fixture.
    let e = entry(
        "broken",
        FileState::Content("garbage program".to_string()),
        FileState::Content("{".to_string()),
    );
    let (outcome, _) = test_example(&e, false, false);
    assert!(matches!(outcome, Err(RunError::InvalidJson(_))));
}

#[test]
fn test_mode_reports_compilation_failure() {
    let e = entry(
        "badprog",
        FileState::Content("garbage program".to_string()),
        FileState::Content(GOOD_INPUTS.to_string()),
    );
    let (outcome, _) = test_example(&e, false, false);
    assert!(matches!(outcome, Err(RunError::Compilation(_))));
}

#[test]
fn test_mode_reports_execution_failure() {
    // assert fails at run time when the top of the stack is not 1.
    let e = entry(
        "runfail",
        FileState::Content("begin assert end".to_string()),
        FileState::Content("{\"operand_stack\": [\"0\"]}".to_string()),
    );
    let (outcome, _) = test_example(&e, false, false);
    assert!(matches!(outcome, Err(RunError::Execution(_))));
}

#[test]
fn ci_mode_emits_no_notes() {
    let (_, notes) = test_example(&good_entry("quiet"), true, true);
    assert!(notes.is_empty());
    let e = entry("gone", FileState::Missing, FileState::Missing);
    let (_, notes) = test_example(&e, true, true);
    assert!(notes.is_empty());
    let all = vec![good_entry("a"), good_entry("b")];
    let (_, notes) = test_all_examples(&all, true, true, true);
    assert!(notes.is_empty());
}

#[test]
fn error_messages_carry_phase_prefixes() {
    assert_eq!(
        RunError::Compilation("boom".to_string()).message(),
        "compilation failed: boom"
    );
    assert_eq!(
        RunError::Execution("halt".to_string()).message(),
        "execution failed: halt"
    );
    assert_eq!(
        RunError::MasmNotFound("gone".to_string()).message(),
        "example file not found: gone"
    );
    assert_eq!(
        ValidationIssue::MissingInputs("fib".to_string()).message(),
        "missing .inputs file for fib"
    );
}

#[test]
fn scan_stops_at_first_failure() {
    let bad = entry(
        "bad",
        FileState::Content("garbage".to_string()),
        FileState::Content(GOOD_INPUTS.to_string()),
    );
    let all = vec![bad, good_entry("later")];
    let (summary, _) = test_all_examples(&all, false, false, true);
    assert_eq!(summary.total, 1);
    assert_eq!(summary.passed, 0);
    assert_eq!(summary.failures.len(), 1);
    assert_eq!(summary.failures[0].0, "bad");
}

#[test]
fn scan_continues_on_error_over_every_example() {
    let bad = entry(
        "bad",
        FileState::Content("garbage".to_string()),
        FileState::Content(GOOD_INPUTS.to_string()),
    );
    let all = vec![bad, good_entry("later"), good_entry("last")];
    let (summary, _) = test_all_examples(&all, false, true, true);
    assert_eq!(summary.total, 3);
    assert_eq!(summary.passed, 2);
    assert_eq!(summary.failures.len(), 1);
    assert_eq!(summary.failures[0].0, "bad");
}

#[test]
fn scan_of_all_good_examples_passes() {
    let all = vec![good_entry("a"), good_entry("b")];
    let (summary, _) = test_all_examples(&all, false, false, true);
    assert_eq!(summary.total, 2);
    assert_eq!(summary.passed, 2);
    assert!(summary.failures.is_empty());
}

#[test]
fn validation_flags_every_discrepancy() {
    // Three examples: one without a companion fixture, one with an empty
    // source file, one fully valid: exactly two discrepancies.
    let no_inputs = entry(
        "lonely",
        FileState::Content(GOOD_MASM.to_string()),
        FileState::Missing,
    );
    let empty_masm = entry(
        "hollow",
        FileState::Content("  \n\t".to_string()),
        FileState::Content(GOOD_INPUTS.to_string()),
    );
    let fine = good_entry("fine");
    let issues = validate_examples_directory(&vec![no_inputs, empty_masm, fine]);
    assert_eq!(issues.len(), 2);
    assert!(matches!(&issues[0], ValidationIssue::MissingInputs(n) if n == "lonely"));
    assert!(matches!(&issues[1], ValidationIssue::EmptyMasm(n) if n == "hollow"));
}

#[test]
fn validation_flags_invalid_json() {
    let bad_json = entry(
        "scrambled",
        FileState::Content(GOOD_MASM.to_string()),
        FileState::Content("{ not json".to_string()),
    );
    let issues = validate_examples_directory(&vec![bad_json]);
    assert_eq!(issues.len(), 1);
    assert!(matches!(&issues[0], ValidationIssue::InvalidJson(n) if n == "scrambled"));
}

#[test]
fn validation_accepts_clean_directory() {
    let issues = validate_examples_directory(&vec![good_entry("a"), good_entry("b")]);
    assert!(issues.is_empty());
}

#[test]
fn benchmark_reports_all_phases_in_order() {
    let (outcome, events) = benchmark_example(&good_entry("adder"), SecurityLevel::Standard, 1);
    assert!(outcome.is_ok(), "{outcome:?}");
    assert_eq!(events.len(), 6);
    assert!(matches!(events[0], BenchEvent::Header));
    assert!(matches!(events[1], BenchEvent::CompileMs(_)));
    assert!(matches!(events[2], BenchEvent::ExecuteMs(_, steps) if steps > 0));
    assert!(matches!(events[3], BenchEvent::ProveMs(_)));
    assert!(matches!(events[4], BenchEvent::VerifyMs(_)));
    // The program pushes 3 and adds it to the 5 on top of the input stack.
    assert!(matches!(&events[5], BenchEvent::ResultStack(v) if v == &vec![8]));
}

#[test]
fn benchmark_stops_at_the_failing_phase() {
    let e = entry(
        "badprog",
        FileState::Content("garbage".to_string()),
        FileState::Content(GOOD_INPUTS.to_string()),
    );
    let (outcome, events) = benchmark_example(&e, SecurityLevel::Standard, 1);
    assert!(matches!(outcome, Err(RunError::Compilation(_))));
    assert_eq!(events.len(), 1);
    assert!(matches!(events[0], BenchEvent::Header));
}

#[test]
fn not_found_errors_name_the_example() {
    let e = entry("gone", FileState::Missing, FileState::Missing);
    let (outcome, _) = test_example(&e, false, false);
    assert_eq!(outcome.unwrap_err().message(), "example file not found: gone");
    let e = entry(
        "half",
        FileState::Content(GOOD_MASM.to_string()),
        FileState::Missing,
    );
    let (outcome, _) = test_example(&e, false, false);
    assert_eq!(outcome.unwrap_err().message(), "inputs file not found: half");
}

#[test]
fn verbose_scan_notes_mirror_the_entries() {
    let bad = entry(
        "bad",
        FileState::Content("garbage".to_string()),
        FileState::Content(GOOD_INPUTS.to_string()),
    );
    let all = vec![bad, good_entry("later")];
    let (summary, notes) = test_all_examples(&all, true, true, false);
    assert_eq!(notes.len(), 2);
    assert!(matches!(&notes[0], ScanNote::Fail(n, m) if n == "bad" && m == &summary.failures[0].1));
    assert!(matches!(&notes[1], ScanNote::Pass(n) if n == "later"));
}

#[test]
fn quiet_scan_notes_mirror_the_failures() {
    let bad = entry(
        "bad",
        FileState::Content("garbage".to_string()),
        FileState::Content(GOOD_INPUTS.to_string()),
    );
    let all = vec![good_entry("first"), bad];
    let (summary, notes) = test_all_examples(&all, false, true, false);
    assert_eq!(notes.len(), 1);
    assert!(
        matches!(&notes[0], ScanNote::Fail(n, m) if n == &summary.failures[0].0 && m == &summary.failures[0].1)
    );
    assert!(summary.failures[0].1.starts_with("compilation failed: "));
}

#[test]
fn test_notes_follow_the_stages() {
    let (_, notes) = test_example(&good_entry("noted"), true, false);
    assert!(matches!(notes[0], TestNote::Testing));
    assert!(matches!(notes[1], TestNote::MasmRead));
    assert!(matches!(notes[2], TestNote::InputsValid));
    assert!(matches!(notes[3], TestNote::CompilationOk));
    assert!(matches!(notes[4], TestNote::ExecutionOk(steps) if steps > 0));
    assert!(matches!(notes[5], TestNote::Passed));
    assert_eq!(notes.len(), 6);
}

#[test]
fn oversized_advice_stack_fails_without_panicking() {
    // The processor caps its advice stack at 1 << 17 entries; a fixture just
    // past that limit must surface an execution error, not a panic.
    let zeros: Vec<&str> = std::iter::repeat("\"0\"").take((1 << 17) + 1).collect();
    let fixture = format!(
        "{{\"operand_stack\": [\"5\"], \"advice_stack\": [{}]}}",
        zeros.join(",")
    );
    let e = entry(
        "bigadvice",
        FileState::Content(GOOD_MASM.to_string()),
        FileState::Content(fixture),
    );
    let (outcome, _) = test_example(&e, false, true);
    assert!(matches!(outcome, Err(RunError::Execution(_))));
}

//! The directory scanner: drives the test pipeline over every discovered
//! example and aggregates pass/fail counts, and the execution-free validator
//! of an example directory's structure.

use vstd::prelude::*;

use crate::engine;
use crate::runner;
use crate::runner::{example_passes, ExampleEntry, FileState};

verus! {

/// The aggregate outcome of a scan: how many examples were processed, how
/// many passed, and the name and reason of every failure.
pub struct Summary {
    pub total: usize,
    pub passed: usize,
    pub failures: Vec<(String, String)>,
}

/// The names of the recorded failures, in order.
pub open spec fn pair_names(failures: Seq<(String, String)>) -> Seq<String> {
    failures.map_values(|p: (String, String)| p.0)
}

/// The recorded failures as plain text, in order.
pub open spec fn pair_views(failures: Seq<(String, String)>) -> Seq<(Seq<char>, Seq<char>)> {
    failures.map_values(|p: (String, String)| (p.0@, p.1@))
}

/// The name and message of every failing entry, in enumeration order.
pub open spec fn failed_views(entries: Seq<ExampleEntry>) -> Seq<(Seq<char>, Seq<char>)>
    decreases entries.len(),
{
    if entries.len() == 0 {
        seq![]
    } else {
        failed_views(entries.drop_last()) + (if example_passes(entries.last()) {
            seq![]
        } else {
            seq![(entries.last().name@, runner::failure_message(entries.last()))]
        })
    }
}

/// The names of the entries whose test pipeline fails, in enumeration order.
pub open spec fn failed_names(entries: Seq<ExampleEntry>) -> Seq<String>
    decreases entries.len(),
{
    if entries.len() == 0 {
        seq![]
    } else {
        failed_names(entries.drop_last()) + (if example_passes(entries.last()) {
            seq![]
        } else {
            seq![entries.last().name]
        })
    }
}

/// Every recorded failure names one of the scanned entries.
pub open spec fn failure_names_covered(
    failures: Seq<(String, String)>,
    entries: Seq<ExampleEntry>,
) -> bool {
    forall|k: int| #![trigger failures[k]]
        0 <= k < failures.len() ==> exists|j: int| #![trigger entries[j]]
            0 <= j < entries.len() && failures[k].0@ == entries[j].name@
}

/// A per-example line that a scan would print, in scan order.
pub enum ScanNote {
    Pass(String),
    Fail(String, String),
}

/// The line a processed entry earns: a pass line with its name, or a fail
/// line with its name and the message of its first failing phase.
pub open spec fn note_for(n: ScanNote, e: ExampleEntry) -> bool {
    if example_passes(e) {
        n matches ScanNote::Pass(p) && p@ == e.name@
    } else {
        n matches ScanNote::Fail(p, m) && (p@ == e.name@ && m@ == runner::failure_message(e))
    }
}

/// Runs the test pipeline once over each entry, in the given order.
///
/// Under the default stop-on-first-failure policy the scan halts right after
/// the first failing example, leaving the entries behind it unprocessed;
/// under continue-on-error every entry is processed exactly once. Either
/// way the counts add up, the failure list matches the failed count, and in
/// CI mode nothing is emitted.
pub fn test_all_examples(
    entries: &Vec<ExampleEntry>,
    verbose: bool,
    continue_on_error: bool,
    ci: bool,
) -> (r: (Summary, Vec<ScanNote>))
    ensures
        ci ==> r.1@.len() == 0,
        r.0.passed + r.0.failures@.len() == r.0.total,
        r.0.total <= entries@.len(),
        continue_on_error ==> r.0.total == entries@.len(),
        continue_on_error ==> pair_names(r.0.failures@) == failed_names(entries@),
        continue_on_error ==> pair_views(r.0.failures@) == failed_views(entries@),
        !continue_on_error ==> r.0.failures@.len() <= 1,
        !continue_on_error && r.0.failures@.len() == 0 ==> r.0.total == entries@.len(),
        !continue_on_error && r.0.failures@.len() == 1 ==> r.0.passed + 1 == r.0.total,
        !continue_on_error ==> forall|j: int|
            0 <= j < r.0.passed ==> example_passes(#[trigger] entries@[j]),
        !continue_on_error && r.0.failures@.len() == 1 ==> (!example_passes(
            entries@[r.0.total - 1],
        ) && (r.0.failures@[0].0 == entries@[r.0.total - 1].name && r.0.failures@[0].1@
            == runner::failure_message(entries@[r.0.total - 1]))),
        failure_names_covered(r.0.failures@, entries@),
        !ci && verbose ==> r.1@.len() == r.0.total && forall|j: int|
            0 <= j < r.0.total ==> note_for(#[trigger] r.1@[j], entries@[j]),
        !ci && !verbose ==> r.1@.len() == r.0.failures@.len() && forall|k: int|
            #![trigger r.1@[k]]
            0 <= k < r.1@.len() ==> (r.1@[k] matches ScanNote::Fail(p, m) && (p
                == r.0.failures@[k].0 && m == r.0.failures@[k].1)),
{
    let mut notes: Vec<ScanNote> = Vec::new();
    let mut failures: Vec<(String, String)> = Vec::new();
    let mut passed: usize = 0;
    let mut i: usize = 0;
    let mut stopped: bool = false;
    while i < entries.len() && !stopped
        invariant
            0 <= i <= entries@.len(),
            passed + failures@.len() == i,
            ci ==> notes@.len() == 0,
            continue_on_error ==> !stopped,
            continue_on_error ==> pair_names(failures@) == failed_names(
                entries@.subrange(0, i as int),
            ),
            !continue_on_error ==> failures@.len() <= 1,
            stopped ==> failures@.len() == 1,
            !stopped && !continue_on_error ==> failures@.len() == 0,
            !continue_on_error && !stopped ==> forall|j: int|
                0 <= j < i ==> example_passes(#[trigger] entries@[j]),
            continue_on_error ==> pair_views(failures@) == failed_views(
                entries@.subrange(0, i as int),
            ),
            stopped ==> failures@[0].1@ == runner::failure_message(entries@[i - 1]),
            !ci && verbose ==> notes@.len() == i && forall|j: int|
                0 <= j < i ==> note_for(#[trigger] notes@[j], entries@[j]),
            !ci && !verbose ==> notes@.len() == failures@.len() && forall|k: int|
                #![trigger notes@[k]]
                0 <= k < notes@.len() ==> (notes@[k] matches ScanNote::Fail(p, m) && (p
                    == failures@[k].0 && m == failures@[k].1)),
            stopped ==> (i >= 1 && (!example_passes(entries@[i - 1]) && (failures@[0].0
                == entries@[i - 1].name && forall|j: int|
                0 <= j < i - 1 ==> example_passes(#[trigger] entries@[j])))),
            failure_names_covered(failures@, entries@),
        decreases entries@.len() - i,
    {
        let entry = &entries[i];
        let (outcome, _inner_notes) = runner::test_example(entry, verbose, true);
        proof {
            let pre = entries@.subrange(0, i as int);
            let now = entries@.subrange(0, i + 1);
            assert(now.drop_last() =~= pre);
            assert(now.last() == entries@[i as int]);
        }
        match outcome {
            Ok(()) => {
                passed = passed + 1;
                if verbose && !ci {
                    notes.push(ScanNote::Pass(entry.name.clone()));
                }
                proof {
                    if continue_on_error {
                        assert(failed_names(entries@.subrange(0, i + 1)) =~= failed_names(
                            entries@.subrange(0, i as int),
                        ));
                        assert(failed_views(entries@.subrange(0, i + 1)) =~= failed_views(
                            entries@.subrange(0, i as int),
                        ));
                    }
                }
            },
            Err(e) => {
                let reason = e.message();
                if !ci {
                    notes.push(ScanNote::Fail(entry.name.clone(), reason.clone()));
                }
                failures.push((entry.name.clone(), reason));
                proof {
                    let k = failures@.len() - 1;
                    assert(failures@[k].0@ == entries@[i as int].name@);
                    assert(exists|j: int| #![trigger entries@[j]]
                        0 <= j < entries@.len() && failures@[k].0@ == entries@[j].name@);
                    if continue_on_error {
                        assert(pair_names(failures@) =~= pair_names(failures@.drop_last()).push(
                            failures@.last().0,
                        ));
                        assert(failed_names(entries@.subrange(0, i + 1)) =~= failed_names(
                            entries@.subrange(0, i as int),
                        ) + seq![entries@[i as int].name]);
                        assert(pair_names(failures@) =~= failed_names(
                            entries@.subrange(0, i + 1),
                        ));
                        assert(failed_views(entries@.subrange(0, i + 1)) =~= failed_views(
                            entries@.subrange(0, i as int),
                        ) + seq![
                            (
                                entries@[i as int].name@,
                                runner::failure_message(entries@[i as int]),
                            ),
                        ]);
                        assert(pair_views(failures@) =~= pair_views(failures@.drop_last()).push(
                            (failures@.last().0@, failures@.last().1@),
                        ));
                        assert(pair_views(failures@) =~= failed_views(
                            entries@.subrange(0, i + 1),
                        ));
                    }
                }
                if !continue_on_error {
                    stopped = true;
                }
            },
        }
        i = i + 1;
    }
    proof {
        if i == entries@.len() {
            assert(entries@.subrange(0, i as int) =~= entries@);
        }
    }
    (Summary { total: i, passed, failures }, notes)
}

/// True when `c` has the Unicode White_Space property: the set `str::trim`
/// strips, so a file of nothing but these counts as empty.
pub open spec fn is_blank_char(c: char) -> bool {
    ||| c == '\u{9}'
    ||| c == '\u{a}'
    ||| c == '\u{b}'
    ||| c == '\u{c}'
    ||| c == '\u{d}'
    ||| c == ' '
    ||| c == '\u{85}'
    ||| c == '\u{a0}'
    ||| c == '\u{1680}'
    ||| ('\u{2000}' <= c && c <= '\u{200a}')
    ||| c == '\u{2028}'
    ||| c == '\u{2029}'
    ||| c == '\u{202f}'
    ||| c == '\u{205f}'
    ||| c == '\u{3000}'
}

/// True when the text holds nothing but blank characters.
pub open spec fn is_blank(s: Seq<char>) -> bool {
    forall|i: int| 0 <= i < s.len() ==> is_blank_char(#[trigger] s[i])
}

/// Whether the text holds nothing but blank characters.
pub fn text_is_blank(s: &str) -> (r: bool)
    ensures
        r == is_blank(s@),
{
    let n = s.unicode_len();
    let mut i: usize = 0;
    while i < n
        invariant
            0 <= i <= n,
            n == s@.len(),
            forall|k: int| 0 <= k < i ==> is_blank_char(#[trigger] s@[k]),
        decreases n - i,
    {
        let c = s.get_char(i);
        let blank = c == '\u{9}' || c == '\u{a}' || c == '\u{b}' || c == '\u{c}' || c == '\u{d}'
            || c == ' ' || c == '\u{85}' || c == '\u{a0}' || c == '\u{1680}' || ('\u{2000}' <= c
            && c <= '\u{200a}') || c == '\u{2028}' || c == '\u{2029}' || c == '\u{202f}'
            || c == '\u{205f}' || c == '\u{3000}';
        if !blank {
            assert(!is_blank_char(s@[i as int]));
            return false;
        }
        i = i + 1;
    }
    true
}

/// One discrepancy of an example directory, each naming its example.
pub enum ValidationIssue {
    MissingInputs(String),
    UnreadableMasm(String),
    EmptyMasm(String),
    UnreadableInputs(String),
    InvalidJson(String),
}

impl ValidationIssue {
    /// The descriptive message: a fixed prefix and the example's name.
    pub open spec fn message_spec(&self) -> Seq<char> {
        match self {
            ValidationIssue::MissingInputs(n) => "missing .inputs file for "@ + n@,
            ValidationIssue::UnreadableMasm(n) => "cannot read .masm file: "@ + n@,
            ValidationIssue::EmptyMasm(n) => "empty .masm file: "@ + n@,
            ValidationIssue::UnreadableInputs(n) => "cannot read .inputs file: "@ + n@,
            ValidationIssue::InvalidJson(n) => "invalid JSON in .inputs file: "@ + n@,
        }
    }

    pub fn message(&self) -> (r: String)
        ensures
            r@ == self.message_spec(),
    {
        match self {
            ValidationIssue::MissingInputs(n) => String::from_str("missing .inputs file for ")
                .concat(n.as_str()),
            ValidationIssue::UnreadableMasm(n) => String::from_str("cannot read .masm file: ")
                .concat(n.as_str()),
            ValidationIssue::EmptyMasm(n) => String::from_str("empty .masm file: ").concat(
                n.as_str(),
            ),
            ValidationIssue::UnreadableInputs(n) => String::from_str("cannot read .inputs file: ")
                .concat(n.as_str()),
            ValidationIssue::InvalidJson(n) => String::from_str("invalid JSON in .inputs file: ")
                .concat(n.as_str()),
        }
    }
}

/// The discrepancies of one entry, in reporting order: a missing companion
/// fixture, then an unreadable or blank source file, then an unreadable or
/// non-JSON fixture.
pub open spec fn issues_of(e: ExampleEntry) -> Seq<ValidationIssue> {
    (match e.inputs {
        FileState::Missing => seq![ValidationIssue::MissingInputs(e.name)],
        _ => seq![],
    }) + (match e.masm {
        FileState::Content(s) => if is_blank(s@) {
            seq![ValidationIssue::EmptyMasm(e.name)]
        } else {
            seq![]
        },
        _ => seq![ValidationIssue::UnreadableMasm(e.name)],
    }) + (match e.inputs {
        FileState::Missing => seq![],
        FileState::Unreadable => seq![ValidationIssue::UnreadableInputs(e.name)],
        FileState::Content(s) => if engine::json_valid(s@) {
            seq![]
        } else {
            seq![ValidationIssue::InvalidJson(e.name)]
        },
    })
}

/// All discrepancies of a directory, entry by entry in enumeration order.
pub open spec fn all_issues(entries: Seq<ExampleEntry>) -> Seq<ValidationIssue>
    decreases entries.len(),
{
    if entries.len() == 0 {
        seq![]
    } else {
        all_issues(entries.drop_last()) + issues_of(entries.last())
    }
}

/// Validates the structure of an example directory without compiling or
/// executing anything: every discrepancy of every entry is collected, none
/// stops the scan.
pub fn validate_examples_directory(entries: &Vec<ExampleEntry>) -> (r: Vec<ValidationIssue>)
    ensures
        r@ == all_issues(entries@),
{
    let mut issues: Vec<ValidationIssue> = Vec::new();
    let mut i: usize = 0;
    while i < entries.len()
        invariant
            0 <= i <= entries@.len(),
            issues@ == all_issues(entries@.subrange(0, i as int)),
        decreases entries@.len() - i,
    {
        let entry = &entries[i];
        if matches!(&entry.inputs, FileState::Missing) {
            issues.push(ValidationIssue::MissingInputs(entry.name.clone()));
        }
        match &entry.masm {
            FileState::Content(s) => {
                if text_is_blank(s.as_str()) {
                    issues.push(ValidationIssue::EmptyMasm(entry.name.clone()));
                }
            },
            _ => {
                issues.push(ValidationIssue::UnreadableMasm(entry.name.clone()));
            },
        }
        match &entry.inputs {
            FileState::Missing => {},
            FileState::Unreadable => {
                issues.push(ValidationIssue::UnreadableInputs(entry.name.clone()));
            },
            FileState::Content(s) => {
                let parse_outcome = engine::json_parse(s.as_str());
                if parse_outcome.is_err() {
                    issues.push(ValidationIssue::InvalidJson(entry.name.clone()));
                }
            },
        }
        proof {
            let pre = entries@.subrange(0, i as int);
            let now = entries@.subrange(0, i + 1);
            assert(now.drop_last() =~= pre);
            assert(now.last() == entries@[i as int]);
            assert(issues@ =~= all_issues(pre) + issues_of(entries@[i as int]));
        }
        i = i + 1;
    }
    assert(entries@.subrange(0, entries@.len() as int) =~= entries@);
    issues
}

} // verus!

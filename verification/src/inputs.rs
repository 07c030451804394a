//! The input deserializer: turns the JSON text of an `.inputs` fixture into
//! typed stack and advice values for the engine.

use vstd::prelude::*;

use crate::engine;
use crate::engine::FieldShape;
use crate::text;

verus! {

/// Why a fixture was rejected: the text is not a JSON document at all, or the
/// document does not have the expected stack/advice shape.
#[derive(Debug)]
pub enum InputsError {
    Json(String),
    Shape(String),
}

/// The parsed contents of an `.inputs` fixture: the initial operand stack and
/// the advice stack, top first, as integers.
///
/// The fixture is a JSON object; its `operand_stack` field is an array of
/// decimal strings, and its optional `advice_stack` field is another.
pub struct Inputs {
    pub stack_values: Vec<u64>,
    pub advice_values: Vec<u64>,
}

impl Inputs {
    /// Every value is a valid field element, and the operand stack fits the
    /// VM's 16-slot input stack.
    pub open spec fn wf(&self) -> bool {
        &&& self.stack_values@.len() <= 16
        &&& forall|i: int|
            0 <= i < self.stack_values@.len() ==> self.stack_values@[i] < engine::FELT_ORDER
        &&& forall|i: int|
            0 <= i < self.advice_values@.len() ==> self.advice_values@[i] < engine::FELT_ORDER
    }
}

/// The field-element value one fixture entry denotes: a non-empty string of
/// decimal digits below the field order, `None` otherwise.
pub open spec fn parse_field_value(s: Seq<char>) -> Option<u64> {
    if s.len() > 0 && text::all_dec_digits(s) && text::dec_value(s) < engine::FELT_ORDER as nat {
        Some(text::dec_value(s) as u64)
    } else {
        None
    }
}

/// The values a fixture array denotes: `Some` exactly when every entry
/// denotes one.
pub open spec fn parse_values(strs: Seq<Seq<char>>) -> Option<Seq<u64>> {
    if forall|i: int| 0 <= i < strs.len() ==> parse_field_value(#[trigger] strs[i]) is Some {
        Some(strs.map_values(|s: Seq<char>| parse_field_value(s)->0))
    } else {
        None
    }
}

/// What the `operand_stack` field of the fixture text holds.
pub open spec fn operand_field(s: Seq<char>) -> Option<Option<Seq<Seq<char>>>> {
    engine::fixture_field(s, "operand_stack"@)
}

/// What the `advice_stack` field of the fixture text holds.
pub open spec fn advice_field(s: Seq<char>) -> Option<Option<Seq<Seq<char>>>> {
    engine::fixture_field(s, "advice_stack"@)
}

/// Whether the fixture text is accepted: a JSON document whose
/// `operand_stack` field is an array of at most 16 decimal strings below the
/// field order, and whose `advice_stack` field, when present, is another
/// such array (of any length).
pub open spec fn fixture_ok(s: Seq<char>) -> bool {
    &&& engine::json_valid(s)
    &&& operand_field(s) matches Some(Some(strs)) && (parse_values(strs) matches Some(v)
        && v.len() <= 16)
    &&& match advice_field(s) {
        None => true,
        Some(None) => false,
        Some(Some(strs)) => parse_values(strs) is Some,
    }
}

/// The operand stack an accepted fixture denotes.
pub open spec fn fixture_stack(s: Seq<char>) -> Seq<u64> {
    parse_values(operand_field(s)->0->0)->0
}

/// The advice stack an accepted fixture denotes: empty when the field is
/// absent.
pub open spec fn fixture_advice(s: Seq<char>) -> Seq<u64> {
    match advice_field(s) {
        Some(Some(strs)) => parse_values(strs)->0,
        _ => seq![],
    }
}

/// Whether an entry is a decimal integer that fits a `u64` (it may still be
/// too large for the field).
pub open spec fn dec_parse_ok(s: Seq<char>) -> bool {
    s.len() > 0 && text::all_dec_digits(s) && text::dec_value(s) <= u64::MAX
}

/// The diagnostic `parse_value_array` reports for the first entry that does
/// not denote a field-element value.
pub open spec fn array_message(strs: Seq<Seq<char>>) -> Seq<char>
    decreases strs.len(),
{
    if strs.len() == 0 {
        seq![]
    } else if parse_field_value(strs.first()) is None {
        if dec_parse_ok(strs.first()) {
            "stack entry is not a valid field element"@
        } else {
            "stack entries must be decimal integers"@
        }
    } else {
        array_message(strs.drop_first())
    }
}

/// When the entries before `i` all parse and entry `i` does not, the array's
/// diagnostic is the one entry `i` earns.
proof fn lemma_array_message(strs: Seq<Seq<char>>, i: int)
    requires
        0 <= i < strs.len(),
        forall|k: int| 0 <= k < i ==> parse_field_value(#[trigger] strs[k]) is Some,
        parse_field_value(strs[i]) is None,
    ensures
        array_message(strs) == (if dec_parse_ok(strs[i]) {
            "stack entry is not a valid field element"@
        } else {
            "stack entries must be decimal integers"@
        }),
    decreases i,
{
    if i == 0 {
        assert(strs.first() == strs[0]);
    } else {
        assert(parse_field_value(strs.first()) is Some);
        let tail = strs.drop_first();
        assert(tail[i - 1] == strs[i]);
        assert(forall|k: int| 0 <= k < i - 1 ==> #[trigger] tail[k] == strs[k + 1]);
        lemma_array_message(tail, i - 1);
    }
}

/// Reads one fixture array: every entry must be a string holding a decimal
/// integer below the field order; the parsed values are exactly those the
/// strings denote.
fn parse_value_array(items: &Vec<String>) -> (r: Result<Vec<u64>, InputsError>)
    ensures
        r matches Ok(v) ==> (parse_values(engine::views_of(items@)) matches Some(vs) && v@ == vs),
        r matches Err(e) ==> (e matches InputsError::Shape(d) && (parse_values(
            engine::views_of(items@),
        ) is None && d@ == array_message(engine::views_of(items@)))),
        r matches Ok(v) ==> forall|i: int| 0 <= i < v@.len() ==> #[trigger] v@[i]
            < engine::FELT_ORDER,
{
    let ghost strs = engine::views_of(items@);
    let mut out: Vec<u64> = Vec::new();
    let mut i: usize = 0;
    while i < items.len()
        invariant
            0 <= i <= items@.len(),
            strs == engine::views_of(items@),
            strs.len() == items@.len(),
            out@.len() == i,
            forall|k: int| 0 <= k < i ==> parse_field_value(#[trigger] strs[k]) is Some,
            forall|k: int| 0 <= k < i ==> #[trigger] out@[k] == parse_field_value(strs[k])->0,
            forall|k: int| 0 <= k < out@.len() ==> #[trigger] out@[k] < engine::FELT_ORDER,
        decreases items@.len() - i,
    {
        proof {
            assert(strs[i as int] == items@[i as int]@);
        }
        let parsed = match text::parse_u64_dec(items[i].as_str()) {
            Some(v) => v,
            None => {
                proof {
                    assert(parse_field_value(strs[i as int]) is None);
                    assert(!dec_parse_ok(strs[i as int]));
                    lemma_array_message(strs, i as int);
                }
                return Err(
                    InputsError::Shape(
                        String::from_str("stack entries must be decimal integers"),
                    ),
                );
            },
        };
        if parsed >= engine::FELT_ORDER {
            proof {
                assert(parse_field_value(strs[i as int]) is None);
                assert(dec_parse_ok(strs[i as int]));
                lemma_array_message(strs, i as int);
            }
            return Err(
                InputsError::Shape(String::from_str("stack entry is not a valid field element")),
            );
        }
        proof {
            assert(parse_field_value(strs[i as int]) == Some(parsed));
        }
        out.push(parsed);
        i = i + 1;
    }
    proof {
        let mapped = strs.map_values(|s: Seq<char>| parse_field_value(s)->0);
        assert(out@ =~= mapped);
    }
    Ok(out)
}

/// The diagnostic the deserializer reports for a JSON document that does
/// not match the fixture schema: the first failing check, in the order the
/// checks run.
pub open spec fn shape_message(s: Seq<char>) -> Seq<char> {
    match operand_field(s) {
        None => "missing operand_stack field"@,
        Some(None) => "operand_stack must be an array of strings"@,
        Some(Some(strs)) => if parse_values(strs) is None {
            array_message(strs)
        } else if (parse_values(strs)->0).len() > 16 {
            "operand_stack holds more than 16 values"@
        } else {
            match advice_field(s) {
                Some(None) => "advice_stack must be an array of strings"@,
                Some(Some(astrs)) => array_message(astrs),
                None => seq![],
            }
        },
    }
}

/// Parses the JSON text of an `.inputs` fixture.
///
/// Fails with `Json` exactly when the text is not a JSON document; fails
/// with `Shape` exactly when the document does not match the expected
/// schema; succeeds exactly on accepted fixtures, returning the values the
/// fixture denotes.
pub fn deserialize_inputs(input_text: &str) -> (r: Result<Inputs, InputsError>)
    ensures
        r is Ok <==> fixture_ok(input_text@),
        (r matches Err(e) && e is Json) <==> !engine::json_valid(input_text@),
        (r matches Err(e) && e is Shape) <==> (engine::json_valid(input_text@) && !fixture_ok(
            input_text@,
        )),
        r matches Ok(inputs) ==> (inputs.stack_values@ == fixture_stack(input_text@)
            && inputs.advice_values@ == fixture_advice(input_text@) && inputs.wf()),
        r matches Err(e) ==> ((e matches InputsError::Json(d) ==> d@ == engine::json_diag(
            input_text@,
        )) && (e matches InputsError::Shape(d) ==> d@ == shape_message(input_text@))),
{
    let document = match engine::json_parse(input_text) {
        Ok(v) => v,
        Err(msg) => { return Err(InputsError::Json(msg)); },
    };
    let stack_values = match engine::json_field_strings(&document, "operand_stack") {
        FieldShape::Absent => {
            return Err(InputsError::Shape(String::from_str("missing operand_stack field")));
        },
        FieldShape::NotStringArray => {
            return Err(
                InputsError::Shape(String::from_str("operand_stack must be an array of strings")),
            );
        },
        FieldShape::Strings(items) => {
            match parse_value_array(&items) {
                Ok(v) => v,
                Err(e) => { return Err(e); },
            }
        },
    };
    if stack_values.len() > 16 {
        return Err(
            InputsError::Shape(String::from_str("operand_stack holds more than 16 values")),
        );
    }
    let advice_values = match engine::json_field_strings(&document, "advice_stack") {
        FieldShape::Absent => Vec::new(),
        FieldShape::NotStringArray => {
            return Err(
                InputsError::Shape(String::from_str("advice_stack must be an array of strings")),
            );
        },
        FieldShape::Strings(items) => {
            match parse_value_array(&items) {
                Ok(v) => v,
                Err(e) => { return Err(e); },
            }
        },
    };
    Ok(Inputs { stack_values, advice_values })
}

} // verus!

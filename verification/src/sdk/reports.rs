//! Reading the outcome of a `tasc` run from the top-level fields of its JSON output.
use vstd::prelude::*;
use vstd::string::*;

use crate::sdk::SdkError;
use crate::text::{trim_str, trimmed};

verus! {

/// `serde_json::Value`, a parsed JSON document, carried unread.
#[verifier::external_type_specification]
#[verifier::external_body]
pub struct ExJsonValue(serde_json::Value);

/// What a JSON object holds under one key, as far as the SDK reads it: nothing, a string
/// (its text), an array (its length), or a value of one of the other kinds.
pub enum JsonField {
    Absent,
    Text(String),
    Array(usize),
    Null,
    Bool,
    Number,
    Object,
}

/// The top-level fields of a JSON document that the SDK reads. A document that is not an
/// object has every field `Absent`.
pub struct JsonFields {
    pub result: JsonField,
    pub status: JsonField,
    pub verdict: JsonField,
    pub findings: JsonField,
    pub failures: JsonField,
}

/// The first of `fields` that is present; `Absent` when none is.
pub open spec fn first_present(fields: Seq<JsonField>) -> JsonField
    decreases fields.len(),
{
    if fields.len() == 0 {
        JsonField::Absent
    } else if !(fields[0] is Absent) {
        fields[0]
    } else {
        first_present(fields.drop_first())
    }
}

/// The text of a field that holds a string.
pub open spec fn field_text(f: JsonField) -> Option<Seq<char>> {
    match f {
        JsonField::Text(s) => Some(s@),
        _ => None,
    }
}

/// The length of a field that holds an array.
pub open spec fn field_len(f: JsonField) -> Option<usize> {
    match f {
        JsonField::Array(n) => Some(n),
        _ => None,
    }
}

/// The outcome a document states: the first present of `result`, `status`, `verdict`,
/// when it is a string.
pub open spec fn spec_outcome(j: JsonFields) -> Option<Seq<char>> {
    field_text(first_present(seq![j.result, j.status, j.verdict]))
}

fn field_text_of(f: &JsonField) -> (r: Option<String>)
    ensures
        match r {
            Some(s) => field_text(*f) == Some(s@),
            None => field_text(*f) is None,
        },
{
    match f {
        JsonField::Text(s) => Some(s.clone()),
        _ => None,
    }
}

/// The outcome stated in a JSON document, if it states one.
pub fn result_from_json(json: Option<&JsonFields>) -> (r: Option<String>)
    ensures
        json is None ==> r is None,
        json matches Some(j) ==> match r {
            Some(s) => spec_outcome(*j) == Some(s@),
            None => spec_outcome(*j) is None,
        },
{
    match json {
        None => None,
        Some(j) => {
            proof {
                reveal_with_fuel(first_present, 4);
            }
            if !matches!(j.result, JsonField::Absent) {
                field_text_of(&j.result)
            } else if !matches!(j.status, JsonField::Absent) {
                field_text_of(&j.status)
            } else {
                field_text_of(&j.verdict)
            }
        },
    }
}

/// The headline of a verification report.
pub struct ReportSummary {
    pub result: String,
    pub verdict: String,
    pub findings_count: usize,
}

pub open spec fn text_or_unknown(t: Option<Seq<char>>) -> Seq<char> {
    match t {
        Some(s) => s,
        None => "UNKNOWN"@,
    }
}

/// The summary of a report: its result (`result`, else `status`), its verdict
/// (`verdict`, else `result`, else `status`), each `UNKNOWN` when the first present of
/// them is not a string, and the number of its findings (or, when `findings` is not an
/// array, of its failures; else none).
pub open spec fn spec_summary(j: JsonFields) -> (Seq<char>, Seq<char>, int) {
    let result = text_or_unknown(field_text(first_present(seq![j.result, j.status])));
    let verdict = text_or_unknown(field_text(first_present(seq![j.verdict, j.result, j.status])));
    let count: int = match field_len(j.findings) {
        Some(n) => n as int,
        None => match field_len(j.failures) {
            Some(n) => n as int,
            None => 0,
        },
    };
    (result, verdict, count)
}

fn text_or_unknown_of(f: &JsonField) -> (r: String)
    ensures
        r@ == text_or_unknown(field_text(*f)),
{
    match f {
        JsonField::Text(s) => s.clone(),
        _ => "UNKNOWN".to_string(),
    }
}

/// Summarises a report from its top-level fields.
pub fn summarize(report: &JsonFields) -> (r: ReportSummary)
    ensures
        (r.result@, r.verdict@, r.findings_count as int) == spec_summary(*report),
{
    proof {
        reveal_with_fuel(first_present, 4);
    }
    let result = if !matches!(report.result, JsonField::Absent) {
        text_or_unknown_of(&report.result)
    } else {
        text_or_unknown_of(&report.status)
    };
    let verdict = if !matches!(report.verdict, JsonField::Absent) {
        text_or_unknown_of(&report.verdict)
    } else if !matches!(report.result, JsonField::Absent) {
        text_or_unknown_of(&report.result)
    } else {
        text_or_unknown_of(&report.status)
    };
    let findings_count = match report.findings {
        JsonField::Array(n) => n,
        _ => match report.failures {
            JsonField::Array(n) => n,
            _ => 0,
        },
    };
    ReportSummary { result, verdict, findings_count }
}

/// Whether a text is one JSON document, as `serde_json::from_str` accepts it.
pub uninterp spec fn spec_is_json(text: Seq<char>) -> bool;

/// Whether a byte string is one JSON document, as `serde_json::from_slice` accepts it.
pub uninterp spec fn spec_is_json_bytes(bytes: Seq<u8>) -> bool;

/// Calls `serde_json::from_str` into a `Value`. Trusted: a document comes back exactly when
/// the text is JSON, which is named, not restated; the document itself is opaque here.
#[verifier::external_body]
fn json_from_str(text: &str) -> (r: Option<serde_json::Value>)
    ensures
        r is Some <==> spec_is_json(text@),
{
    serde_json::from_str::<serde_json::Value>(text).ok()
}

/// Calls `serde_json::from_slice` into a `Value`. Trusted: a document comes back exactly
/// when the bytes are JSON, which is named, not restated; otherwise the error's message.
/// Nothing is stated of that message, which `serde_json` words.
#[verifier::external_body]
fn json_from_slice(bytes: &[u8]) -> (r: Result<serde_json::Value, String>)
    ensures
        r is Ok <==> spec_is_json_bytes(bytes@),
{
    match serde_json::from_slice::<serde_json::Value>(bytes) {
        Ok(v) => Ok(v),
        Err(e) => Err(e.to_string()),
    }
}

/// What `serde_json::Value::get` finds under `key` in the document `serde_json::from_str`
/// reads from `text`, as (kind, string text, array length). The kind is 0 where there is
/// nothing (the text is not JSON, the document is not an object, or the key is missing),
/// 1 a string, 2 an array, 3 null, 4 a Boolean, 5 a number, 6 an object; the string text
/// matters for a string only, and the array length for an array only.
pub uninterp spec fn spec_json_field(text: Seq<char>, key: Seq<char>) -> (u8, Seq<char>, nat);

/// The number of a field's kind, as `spec_json_field` numbers kinds.
pub open spec fn field_kind(f: JsonField) -> u8 {
    match f {
        JsonField::Absent => 0,
        JsonField::Text(_) => 1,
        JsonField::Array(_) => 2,
        JsonField::Null => 3,
        JsonField::Bool => 4,
        JsonField::Number => 5,
        JsonField::Object => 6,
    }
}

/// Whether `f` is what the document of `text` holds under `key`.
pub open spec fn field_is(f: JsonField, text: Seq<char>, key: Seq<char>) -> bool {
    &&& field_kind(f) == spec_json_field(text, key).0
    &&& f matches JsonField::Text(s) ==> s@ == spec_json_field(text, key).1
    &&& f matches JsonField::Array(n) ==> n == spec_json_field(text, key).2
}

/// Calls `serde_json::from_str` into a `Value` and `Value::get` with `key` on it, and says
/// what lies there, one arm per kind of value. Trusted: the result's kind, and for a string
/// its text, for an array its length, are those named over the text and the key.
#[verifier::external_body]
fn json_field(text: &str, key: &str) -> (r: JsonField)
    ensures
        field_kind(r) == spec_json_field(text@, key@).0,
        r matches JsonField::Text(s) ==> s@ == spec_json_field(text@, key@).1,
        r matches JsonField::Array(n) ==> n == spec_json_field(text@, key@).2,
{
    match serde_json::from_str::<serde_json::Value>(text) {
        Err(_) => JsonField::Absent,
        Ok(document) => match document.get(key) {
            None => JsonField::Absent,
            Some(serde_json::Value::String(s)) => JsonField::Text(s.clone()),
            Some(serde_json::Value::Array(items)) => JsonField::Array(items.len()),
            Some(serde_json::Value::Null) => JsonField::Null,
            Some(serde_json::Value::Bool(_)) => JsonField::Bool,
            Some(serde_json::Value::Number(_)) => JsonField::Number,
            Some(serde_json::Value::Object(_)) => JsonField::Object,
        },
    }
}

/// Whether `j` holds the top-level fields of the document of `text`.
pub open spec fn fields_of_text(j: JsonFields, text: Seq<char>) -> bool {
    &&& field_is(j.result, text, "result"@)
    &&& field_is(j.status, text, "status"@)
    &&& field_is(j.verdict, text, "verdict"@)
    &&& field_is(j.findings, text, "findings"@)
    &&& field_is(j.failures, text, "failures"@)
}

/// The top-level fields of the document of `text` that the SDK reads.
fn top_fields(text: &str) -> (r: JsonFields)
    ensures
        fields_of_text(r, text@),
{
    JsonFields {
        result: json_field(text, "result"),
        status: json_field(text, "status"),
        verdict: json_field(text, "verdict"),
        findings: json_field(text, "findings"),
        failures: json_field(text, "failures"),
    }
}

/// The JSON document a run printed, with its top-level fields: none when the trimmed
/// output is empty or is not JSON.
pub fn parse_json_output(stdout: &str) -> (r: Option<(serde_json::Value, JsonFields)>)
    ensures
        trimmed(stdout@).len() == 0 ==> r is None,
        trimmed(stdout@).len() > 0 ==> (r is Some <==> spec_is_json(trimmed(stdout@))),
        r matches Some((_, fields)) ==> fields_of_text(fields, trimmed(stdout@)),
{
    let text = trim_str(stdout);
    if text.unicode_len() == 0 {
        return None;
    }
    match json_from_str(text.as_str()) {
        Some(document) => {
            let fields = top_fields(text.as_str());
            Some((document, fields))
        },
        None => None,
    }
}

/// The JSON document in a file's bytes, or `ParseError` with the parser's message.
pub fn parse_json_bytes(bytes: &[u8]) -> (r: Result<serde_json::Value, SdkError>)
    ensures
        r is Ok <==> spec_is_json_bytes(bytes@),
        r matches Err(e) ==> e is ParseError,
{
    match json_from_slice(bytes) {
        Ok(document) => Ok(document),
        Err(message) => Err(SdkError::ParseError(message)),
    }
}

} // verus!

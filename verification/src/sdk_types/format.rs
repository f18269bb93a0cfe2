//! Output formats of the SDK.
use vstd::prelude::*;

use crate::casing::{ascii_uppered, identifier_case_forms, is_identifier_char, lowered, to_lowercase};
use crate::text::{str_eq, trim_str, trimmed};

verus! {

/// How a response is rendered.
#[derive(Debug, Clone, Copy, PartialEq, Eq, Structural)]
pub enum OutputFormat {
    Human,
    Json,
    Sarif,
}

pub open spec fn format_name(f: OutputFormat) -> Seq<char> {
    match f {
        OutputFormat::Human => "human"@,
        OutputFormat::Json => "json"@,
        OutputFormat::Sarif => "sarif"@,
    }
}

/// The format a normalized name denotes, if any.
pub open spec fn format_named(name: Seq<char>) -> Option<OutputFormat> {
    if name == "human"@ {
        Some(OutputFormat::Human)
    } else if name == "json"@ {
        Some(OutputFormat::Json)
    } else if name == "sarif"@ {
        Some(OutputFormat::Sarif)
    } else {
        None
    }
}

/// A format name that is not supported.
#[derive(Debug, Clone, PartialEq, Eq)]
pub struct ParseOutputFormatError {
    value: String,
}

impl ParseOutputFormatError {
    pub closed spec fn spec_value(&self) -> Seq<char> {
        self.value@
    }

    /// The normalized name that was refused.
    pub fn value(&self) -> (r: &str)
        ensures
            r@ == self.spec_value(),
    {
        self.value.as_str()
    }

    /// The error's message.
    pub fn message(&self) -> (r: String)
        ensures
            r@ == "unsupported output format: "@ + self.spec_value(),
    {
        "unsupported output format: ".to_owned().concat(self.value.as_str())
    }
}

impl OutputFormat {
    /// The format's name.
    pub fn as_str(&self) -> (r: &'static str)
        ensures
            r@ == format_name(*self),
    {
        match self {
            OutputFormat::Human => "human",
            OutputFormat::Json => "json",
            OutputFormat::Sarif => "sarif",
        }
    }

    /// The format named by an already normalized (trimmed, lower-cased) name.
    pub fn from_normalized(name: &str) -> (r: Result<OutputFormat, ParseOutputFormatError>)
        ensures
            format_named(name@) matches Some(f) ==> r == Ok::<OutputFormat, ParseOutputFormatError>(f),
            format_named(name@) is None ==> (r matches Err(e) && e.spec_value() == name@),
    {
        if str_eq(name, "human") {
            Ok(OutputFormat::Human)
        } else if str_eq(name, "json") {
            Ok(OutputFormat::Json)
        } else if str_eq(name, "sarif") {
            Ok(OutputFormat::Sarif)
        } else {
            Err(ParseOutputFormatError { value: name.to_owned() })
        }
    }

    /// Parses a format name: surrounding white space is ignored and case does not matter.
    pub fn parse(value: &str) -> (r: Result<OutputFormat, ParseOutputFormatError>)
        ensures
            ({
                let normalized = lowered(trimmed(value@));
                &&& format_named(normalized) matches Some(f) ==> r == Ok::<OutputFormat, ParseOutputFormatError>(f)
                &&& format_named(normalized) is None ==> (r matches Err(e) && e.spec_value() == normalized)
            }),
    {
        let trimmed_value = trim_str(value);
        let normalized = to_lowercase(trimmed_value.as_str());
        OutputFormat::from_normalized(normalized.as_str())
    }
}

impl std::str::FromStr for OutputFormat {
    type Err = ParseOutputFormatError;

    fn from_str(value: &str) -> (r: Result<Self, Self::Err>)
        ensures
            ({
                let normalized = lowered(trimmed(value@));
                &&& format_named(normalized) matches Some(f) ==> r == Ok::<OutputFormat, ParseOutputFormatError>(f)
                &&& format_named(normalized) is None ==> (r matches Err(e) && e.spec_value() == normalized)
            }),
    {
        OutputFormat::parse(value)
    }
}

/// Every format's name parses back to the format.
pub proof fn format_name_round_trips(f: OutputFormat)
    ensures
        format_named(format_name(f)) == Some(f),
{
    reveal_strlit("human");
    reveal_strlit("json");
    reveal_strlit("sarif");
    assert("human"@.len() != "json"@.len());
    assert("json"@.len() != "sarif"@.len());
    assert("human"@[0] != "sarif"@[0]);
}

/// Every format's name parses back to the format, with surrounding white space or not and
/// in lower or upper case.
pub proof fn format_names_parse_in_either_case(f: OutputFormat)
    ensures
        format_named(lowered(trimmed(format_name(f)))) == Some(f),
        format_named(lowered(trimmed(ascii_uppered(format_name(f))))) == Some(f),
{
    format_name_round_trips(f);
    reveal_strlit("human");
    reveal_strlit("json");
    reveal_strlit("sarif");
    let n = format_name(f);
    assert(forall|i: int| 0 <= i < n.len() ==> is_identifier_char(#[trigger] n[i]));
    identifier_case_forms(n);
}

} // verus!

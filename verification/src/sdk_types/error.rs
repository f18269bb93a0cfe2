//! Error codes and errors of the SDK's shared types.
use vstd::prelude::*;

use crate::casing::{ascii_uppered, identifier_case_forms, is_identifier_char, lowered, to_lowercase};
use crate::text::{replace_char, replace_char_str, str_eq, trim_str, trimmed};

verus! {

/// `std::io::Error`, carried through errors unread.
#[verifier::external_type_specification]
#[verifier::external_body]
pub struct ExIoError(std::io::Error);

/// The stable code of every kind of SDK error.
#[derive(Debug, Clone, Copy, PartialEq, Eq, Structural)]
pub enum SdkErrorCode {
    Io,
    RepoNotFound,
    TascNotFound,
    InvalidConfig,
    CommandFailed,
    Timeout,
    ParseError,
    Canonicalization,
    UnsupportedFormat,
    Unknown,
}

pub open spec fn code_name(c: SdkErrorCode) -> Seq<char> {
    match c {
        SdkErrorCode::Io => "io"@,
        SdkErrorCode::RepoNotFound => "repo_not_found"@,
        SdkErrorCode::TascNotFound => "tasc_not_found"@,
        SdkErrorCode::InvalidConfig => "invalid_config"@,
        SdkErrorCode::CommandFailed => "command_failed"@,
        SdkErrorCode::Timeout => "timeout"@,
        SdkErrorCode::ParseError => "parse_error"@,
        SdkErrorCode::Canonicalization => "canonicalization"@,
        SdkErrorCode::UnsupportedFormat => "unsupported_format"@,
        SdkErrorCode::Unknown => "unknown"@,
    }
}

/// The code a normalized name denotes, if any.
pub open spec fn code_named(name: Seq<char>) -> Option<SdkErrorCode> {
    if name == "io"@ {
        Some(SdkErrorCode::Io)
    } else if name == "repo_not_found"@ {
        Some(SdkErrorCode::RepoNotFound)
    } else if name == "tasc_not_found"@ {
        Some(SdkErrorCode::TascNotFound)
    } else if name == "invalid_config"@ {
        Some(SdkErrorCode::InvalidConfig)
    } else if name == "command_failed"@ {
        Some(SdkErrorCode::CommandFailed)
    } else if name == "timeout"@ {
        Some(SdkErrorCode::Timeout)
    } else if name == "parse_error"@ {
        Some(SdkErrorCode::ParseError)
    } else if name == "canonicalization"@ {
        Some(SdkErrorCode::Canonicalization)
    } else if name == "unsupported_format"@ {
        Some(SdkErrorCode::UnsupportedFormat)
    } else if name == "unknown"@ {
        Some(SdkErrorCode::Unknown)
    } else {
        None
    }
}

/// The normal form of a code name: trimmed, lower-cased, `-` written as `_`.
pub open spec fn normalized_code(value: Seq<char>) -> Seq<char> {
    replace_char(lowered(trimmed(value)), '-', '_')
}

/// An error-code name that is not supported.
#[derive(Debug, Clone, PartialEq, Eq)]
pub struct ParseSdkErrorCodeError {
    value: String,
}

impl ParseSdkErrorCodeError {
    pub closed spec fn spec_value(&self) -> Seq<char> {
        self.value@
    }

    /// The normalized name that was refused.
    pub fn value(&self) -> (r: &str)
        ensures
            r@ == self.spec_value(),
    {
        self.value.as_str()
    }

    /// The error's message.
    pub fn message(&self) -> (r: String)
        ensures
            r@ == "unsupported error code: "@ + self.spec_value(),
    {
        "unsupported error code: ".to_owned().concat(self.value.as_str())
    }
}

impl SdkErrorCode {
    /// The code's name.
    pub fn as_str(&self) -> (r: &'static str)
        ensures
            r@ == code_name(*self),
    {
        match self {
            SdkErrorCode::Io => "io",
            SdkErrorCode::RepoNotFound => "repo_not_found",
            SdkErrorCode::TascNotFound => "tasc_not_found",
            SdkErrorCode::InvalidConfig => "invalid_config",
            SdkErrorCode::CommandFailed => "command_failed",
            SdkErrorCode::Timeout => "timeout",
            SdkErrorCode::ParseError => "parse_error",
            SdkErrorCode::Canonicalization => "canonicalization",
            SdkErrorCode::UnsupportedFormat => "unsupported_format",
            SdkErrorCode::Unknown => "unknown",
        }
    }

    /// The code named by an already normalized name.
    pub fn from_normalized(name: &str) -> (r: Result<SdkErrorCode, ParseSdkErrorCodeError>)
        ensures
            code_named(name@) matches Some(c) ==> r == Ok::<SdkErrorCode, ParseSdkErrorCodeError>(c),
            code_named(name@) is None ==> (r matches Err(e) && e.spec_value() == name@),
    {
        if str_eq(name, "io") {
            Ok(SdkErrorCode::Io)
        } else if str_eq(name, "repo_not_found") {
            Ok(SdkErrorCode::RepoNotFound)
        } else if str_eq(name, "tasc_not_found") {
            Ok(SdkErrorCode::TascNotFound)
        } else if str_eq(name, "invalid_config") {
            Ok(SdkErrorCode::InvalidConfig)
        } else if str_eq(name, "command_failed") {
            Ok(SdkErrorCode::CommandFailed)
        } else if str_eq(name, "timeout") {
            Ok(SdkErrorCode::Timeout)
        } else if str_eq(name, "parse_error") {
            Ok(SdkErrorCode::ParseError)
        } else if str_eq(name, "canonicalization") {
            Ok(SdkErrorCode::Canonicalization)
        } else if str_eq(name, "unsupported_format") {
            Ok(SdkErrorCode::UnsupportedFormat)
        } else if str_eq(name, "unknown") {
            Ok(SdkErrorCode::Unknown)
        } else {
            Err(ParseSdkErrorCodeError { value: name.to_owned() })
        }
    }

    /// Parses a code name: surrounding white space is ignored, case does not matter and `-`
    /// stands for `_`.
    pub fn parse(value: &str) -> (r: Result<SdkErrorCode, ParseSdkErrorCodeError>)
        ensures
            code_named(normalized_code(value@)) matches Some(c) ==> r == Ok::<SdkErrorCode, ParseSdkErrorCodeError>(c),
            code_named(normalized_code(value@)) is None ==> (r matches Err(e) && e.spec_value() == normalized_code(value@)),
    {
        let trimmed_value = trim_str(value);
        let lower_text = to_lowercase(trimmed_value.as_str());
        proof {
            reveal_strlit("_");
        }
        let normalized = replace_char_str(lower_text.as_str(), '-', "_");
        SdkErrorCode::from_normalized(normalized.as_str())
    }
}

impl std::str::FromStr for SdkErrorCode {
    type Err = ParseSdkErrorCodeError;

    fn from_str(value: &str) -> (r: Result<Self, Self::Err>)
        ensures
            code_named(normalized_code(value@)) matches Some(c) ==> r == Ok::<SdkErrorCode, ParseSdkErrorCodeError>(c),
            code_named(normalized_code(value@)) is None ==> (r matches Err(e) && e.spec_value() == normalized_code(value@)),
    {
        SdkErrorCode::parse(value)
    }
}

/// Every code's name is in normal form and parses back to the code.
pub proof fn code_name_round_trips(c: SdkErrorCode)
    ensures
        code_named(code_name(c)) == Some(c),
        replace_char(code_name(c), '-', '_') == code_name(c),
{
    reveal_strlit("io");
    reveal_strlit("repo_not_found");
    reveal_strlit("tasc_not_found");
    reveal_strlit("invalid_config");
    reveal_strlit("command_failed");
    reveal_strlit("timeout");
    reveal_strlit("parse_error");
    reveal_strlit("canonicalization");
    reveal_strlit("unsupported_format");
    reveal_strlit("unknown");
    assert("repo_not_found"@[0] != "tasc_not_found"@[0]);
    assert("repo_not_found"@[0] != "invalid_config"@[0]);
    assert("repo_not_found"@[0] != "command_failed"@[0]);
    assert("tasc_not_found"@[0] != "invalid_config"@[0]);
    assert("tasc_not_found"@[0] != "command_failed"@[0]);
    assert("invalid_config"@[0] != "command_failed"@[0]);
    assert("timeout"@[0] != "unknown"@[0]);
    assert(replace_char(code_name(c), '-', '_') =~= code_name(c));
}

/// Every code's name parses back to the code, with surrounding white space or not, in lower
/// or upper case, and with `-` in place of `_`.
pub proof fn code_names_parse_in_either_form(c: SdkErrorCode)
    ensures
        code_named(normalized_code(code_name(c))) == Some(c),
        code_named(normalized_code(ascii_uppered(replace_char(code_name(c), '_', '-')))) == Some(c),
{
    code_name_round_trips(c);
    let n = code_name(c);
    reveal_strlit("io");
    reveal_strlit("repo_not_found");
    reveal_strlit("tasc_not_found");
    reveal_strlit("invalid_config");
    reveal_strlit("command_failed");
    reveal_strlit("timeout");
    reveal_strlit("parse_error");
    reveal_strlit("canonicalization");
    reveal_strlit("unsupported_format");
    reveal_strlit("unknown");
    assert(forall|i: int| 0 <= i < n.len() ==> ('a' <= #[trigger] n[i] && n[i] <= 'z') || n[i] == '_');
    identifier_case_forms(n);
    let h = replace_char(n, '_', '-');
    assert forall|i: int| 0 <= i < h.len() implies is_identifier_char(#[trigger] h[i]) by {
        assert(('a' <= n[i] && n[i] <= 'z') || n[i] == '_');
    }
    identifier_case_forms(h);
    assert forall|i: int| 0 <= i < n.len() implies #[trigger] replace_char(h, '-', '_')[i] == n[i] by {
        assert(('a' <= n[i] && n[i] <= 'z') || n[i] == '_');
    }
    assert(replace_char(h, '-', '_') =~= n);
}

/// An error of the SDK's shared types.
#[derive(Debug)]
pub enum SdkError {
    Io(std::io::Error),
    RepoNotFound(String),
    TascNotFound(String),
    InvalidConfig(String),
    CommandFailed { code: Option<i32> },
    Timeout { after_ms: u64 },
    ParseError(String),
    Canonicalization(String),
    UnsupportedFormat(String),
    Unknown(String),
}

pub open spec fn error_code(e: SdkError) -> SdkErrorCode {
    match e {
        SdkError::Io(_) => SdkErrorCode::Io,
        SdkError::RepoNotFound(_) => SdkErrorCode::RepoNotFound,
        SdkError::TascNotFound(_) => SdkErrorCode::TascNotFound,
        SdkError::InvalidConfig(_) => SdkErrorCode::InvalidConfig,
        SdkError::CommandFailed { .. } => SdkErrorCode::CommandFailed,
        SdkError::Timeout { .. } => SdkErrorCode::Timeout,
        SdkError::ParseError(_) => SdkErrorCode::ParseError,
        SdkError::Canonicalization(_) => SdkErrorCode::Canonicalization,
        SdkError::UnsupportedFormat(_) => SdkErrorCode::UnsupportedFormat,
        SdkError::Unknown(_) => SdkErrorCode::Unknown,
    }
}

impl SdkError {
    /// The error's stable code.
    pub fn code(&self) -> (r: SdkErrorCode)
        ensures
            r == error_code(*self),
    {
        match self {
            SdkError::Io(_) => SdkErrorCode::Io,
            SdkError::RepoNotFound(_) => SdkErrorCode::RepoNotFound,
            SdkError::TascNotFound(_) => SdkErrorCode::TascNotFound,
            SdkError::InvalidConfig(_) => SdkErrorCode::InvalidConfig,
            SdkError::CommandFailed { .. } => SdkErrorCode::CommandFailed,
            SdkError::Timeout { .. } => SdkErrorCode::Timeout,
            SdkError::ParseError(_) => SdkErrorCode::ParseError,
            SdkError::Canonicalization(_) => SdkErrorCode::Canonicalization,
            SdkError::UnsupportedFormat(_) => SdkErrorCode::UnsupportedFormat,
            SdkError::Unknown(_) => SdkErrorCode::Unknown,
        }
    }
}

} // verus!

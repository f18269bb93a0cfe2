//! The TASC SDK: requests, responses and errors, and the logic around the `tasc` tool.
//! Paths are held as text; `J` is the type of a parsed JSON document, carried unread.
pub mod canonicalization;
pub mod commands;
pub mod constructors;
pub mod attestation;
pub mod snippets;
pub mod templates;
pub mod mock_data;
pub mod paths;
pub mod reports;
pub mod diagnostics;
pub mod client;
pub mod render;
pub mod test_helpers;
pub mod cli;

use vstd::prelude::*;
use vstd::string::*;

use crate::text::{concat_str, i64_to_decimal, signed_decimal, decimal, u64_to_decimal};

verus! {

/// How the SDK renders a response.
#[derive(Debug, Clone, Copy, PartialEq, Eq, Structural, Hash)]
pub enum OutputFormat {
    Human,
    Json,
    Sarif,
}

pub open spec fn format_name(f: OutputFormat) -> Seq<char> {
    match f {
        OutputFormat::Human => "human"@,
        OutputFormat::Json => "json"@,
        OutputFormat::Sarif => "sarif"@,
    }
}

impl OutputFormat {
    /// The format's name.
    pub fn as_str(&self) -> (r: &'static str)
        ensures
            r@ == format_name(*self),
    {
        match self {
            OutputFormat::Human => "human",
            OutputFormat::Json => "json",
            OutputFormat::Sarif => "sarif",
        }
    }
}

impl Default for OutputFormat {
    /// Human output.
    fn default() -> (r: Self)
        ensures
            r == OutputFormat::Human,
    {
        OutputFormat::Human
    }
}

/// An SDK error.
#[derive(Debug)]
pub enum SdkError {
    Io(std::io::Error),
    RepoNotFound(String),
    TascNotFound(String),
    InvalidConfig(String),
    CommandFailed { code: Option<i32>, stdout: String, stderr: String },
    Timeout { after_ms: u64, stdout: String, stderr: String },
    ParseError(String),
    Canonicalization(String),
    UnsupportedFormat(OutputFormat),
    NotImplemented(&'static str),
}

/// The process exit code for an error: 2 for configuration and location errors, 3 for
/// failures of the tool or of its output, 4 for I/O errors, 1 for what is not implemented.
pub open spec fn spec_exit_code(e: SdkError) -> i32 {
    match e {
        SdkError::InvalidConfig(_) | SdkError::RepoNotFound(_) | SdkError::TascNotFound(_) => 2,
        SdkError::CommandFailed { .. } | SdkError::Timeout { .. } | SdkError::ParseError(_)
        | SdkError::Canonicalization(_) | SdkError::UnsupportedFormat(_) => 3,
        SdkError::Io(_) => 4,
        SdkError::NotImplemented(_) => 1,
    }
}

/// Calls the `Display` of `std::io::Error`. Trusted: nothing is stated of the text, which
/// for an operating-system error comes from the platform's error strings.
#[verifier::external_body]
fn io_error_text(e: &std::io::Error) -> (r: String)
{
    e.to_string()
}

pub open spec fn format_debug_name(f: OutputFormat) -> Seq<char> {
    match f {
        OutputFormat::Human => "Human"@,
        OutputFormat::Json => "Json"@,
        OutputFormat::Sarif => "Sarif"@,
    }
}

/// `Some(n)` or `None`, as `Debug` writes an optional exit code.
pub open spec fn debug_code(code: Option<i32>) -> Seq<char> {
    match code {
        Some(c) => "Some("@ + signed_decimal(c as int) + ")"@,
        None => "None"@,
    }
}

/// The message of an error, except an I/O error, whose text after `io error: ` is the
/// platform's.
pub open spec fn spec_error_message(e: SdkError) -> Seq<char> {
    match e {
        SdkError::Io(_) => "io error: "@,
        SdkError::RepoNotFound(p) => "repo root not found from "@ + p@,
        SdkError::TascNotFound(p) => "tasc binary not found at "@ + p@,
        SdkError::InvalidConfig(m) => "invalid config: "@ + m@,
        SdkError::CommandFailed { code, .. } => "command failed (code="@ + debug_code(code) + ")"@,
        SdkError::Timeout { after_ms, .. } => "command timed out after "@ + decimal(after_ms as nat) + "ms"@,
        SdkError::ParseError(m) => "parse error: "@ + m@,
        SdkError::Canonicalization(m) => "canonicalization error: "@ + m@,
        SdkError::UnsupportedFormat(f) => "unsupported output format: "@ + format_debug_name(f),
        SdkError::NotImplemented(m) => "not implemented: "@ + m@,
    }
}

impl SdkError {
    /// The error's message, as the command line prints it.
    pub fn message(&self) -> (r: String)
        ensures
            !(*self is Io) ==> r@ == spec_error_message(*self),
            *self is Io ==> r@.len() >= 10 && r@.subrange(0, 10) == spec_error_message(*self),
    {
        match self {
            SdkError::Io(e) => {
                let text = io_error_text(e);
                let r = concat_str("io error: ", text.as_str());
                proof {
                    reveal_strlit("io error: ");
                    assert(r@.subrange(0, 10) =~= "io error: "@);
                }
                r
            },
            SdkError::RepoNotFound(p) => concat_str("repo root not found from ", p.as_str()),
            SdkError::TascNotFound(p) => concat_str("tasc binary not found at ", p.as_str()),
            SdkError::InvalidConfig(m) => concat_str("invalid config: ", m.as_str()),
            SdkError::CommandFailed { code, .. } => {
                let shown = match code {
                    Some(c) => {
                        let digits = i64_to_decimal(*c as i64);
                        let head = concat_str("Some(", digits.as_str());
                        concat_str(head.as_str(), ")")
                    },
                    None => "None".to_string(),
                };
                let head = concat_str("command failed (code=", shown.as_str());
                concat_str(head.as_str(), ")")
            },
            SdkError::Timeout { after_ms, .. } => {
                let digits = u64_to_decimal(*after_ms);
                let head = concat_str("command timed out after ", digits.as_str());
                concat_str(head.as_str(), "ms")
            },
            SdkError::ParseError(m) => concat_str("parse error: ", m.as_str()),
            SdkError::Canonicalization(m) => concat_str("canonicalization error: ", m.as_str()),
            SdkError::UnsupportedFormat(f) => {
                let name = match f {
                    OutputFormat::Human => "Human",
                    OutputFormat::Json => "Json",
                    OutputFormat::Sarif => "Sarif",
                };
                concat_str("unsupported output format: ", name)
            },
            SdkError::NotImplemented(m) => concat_str("not implemented: ", m),
        }
    }
}

pub fn exit_code_for(error: &SdkError) -> (r: i32)
    ensures
        r == spec_exit_code(*error),
{
    match error {
        SdkError::InvalidConfig(_) | SdkError::RepoNotFound(_) | SdkError::TascNotFound(_) => 2,
        SdkError::CommandFailed { .. } | SdkError::Timeout { .. } | SdkError::ParseError(_)
        | SdkError::Canonicalization(_) | SdkError::UnsupportedFormat(_) => 3,
        SdkError::Io(_) => 4,
        SdkError::NotImplemented(_) => 1,
    }
}

/// Options of an in-memory verification.
pub struct VerifyOptions {
    pub profile_bundle: Option<String>,
    pub trust_mode: Option<String>,
    pub profile: Option<String>,
    pub timeout_ms: Option<u64>,
    pub format: OutputFormat,
}

impl Default for VerifyOptions {
    /// No bundle, trust mode, profile or timeout; JSON output.
    fn default() -> (r: Self)
        ensures
            r.profile_bundle is None,
            r.trust_mode is None,
            r.profile is None,
            r.timeout_ms is None,
            r.format == OutputFormat::Json,
    {
        VerifyOptions { profile_bundle: None, trust_mode: None, profile: None, timeout_ms: None, format: OutputFormat::Json }
    }
}

/// A request to check the environment.
pub struct DoctorRequest {
    pub operation: Option<String>,
    pub profile_bundle: Option<String>,
    pub trust_mode: Option<String>,
    pub format: OutputFormat,
    pub timeout_ms: Option<u64>,
}

impl Default for DoctorRequest {
    /// No operation, bundle or trust mode, human output, no timeout.
    fn default() -> (r: Self)
        ensures
            r.operation is None,
            r.profile_bundle is None,
            r.trust_mode is None,
            r.format == OutputFormat::Human,
            r.timeout_ms is None,
    {
        DoctorRequest { operation: None, profile_bundle: None, trust_mode: None, format: OutputFormat::Human, timeout_ms: None }
    }
}

/// A request to verify an evidence bundle.
pub struct VerifyRequest {
    pub target_path: String,
    pub profile_bundle: Option<String>,
    pub trust_mode: Option<String>,
    pub profile: Option<String>,
    pub timeout_ms: Option<u64>,
    pub format: OutputFormat,
}

/// A request to explain a report.
pub struct ExplainRequest {
    pub report_path: Option<String>,
    pub format: OutputFormat,
    pub renderer: Option<String>,
    pub timeout_ms: Option<u64>,
}

impl Default for ExplainRequest {
    /// The last report, human output, default renderer, no timeout.
    fn default() -> (r: Self)
        ensures
            r.report_path is None,
            r.format == OutputFormat::Human,
            r.renderer is None,
            r.timeout_ms is None,
    {
        ExplainRequest { report_path: None, format: OutputFormat::Human, renderer: None, timeout_ms: None }
    }
}

/// A request to gather a support bundle.
pub struct SupportBundleRequest {
    pub target_path: Option<String>,
    pub archive: bool,
    pub output: Option<String>,
    pub redact: bool,
    pub timeout_ms: Option<u64>,
}

impl Default for SupportBundleRequest {
    /// The current directory, no archive, default output, no redaction, no timeout.
    fn default() -> (r: Self)
        ensures
            r.target_path is None,
            !r.archive,
            r.output is None,
            !r.redact,
            r.timeout_ms is None,
    {
        SupportBundleRequest { target_path: None, archive: false, output: None, redact: false, timeout_ms: None }
    }
}

/// A request to run the CI preflight.
pub struct CiPreflightRequest {
    pub examples: Option<Vec<String>>,
    pub format: OutputFormat,
    pub strict: bool,
    pub output: Option<String>,
    pub profile_bundle: Option<String>,
    pub trust_mode: Option<String>,
    pub timeout_ms: Option<u64>,
}

impl Default for CiPreflightRequest {
    /// The default examples, human output, not strict, no output file, bundle, trust mode or timeout.
    fn default() -> (r: Self)
        ensures
            r.examples is None,
            r.format == OutputFormat::Human,
            !r.strict,
            r.output is None,
            r.profile_bundle is None,
            r.trust_mode is None,
            r.timeout_ms is None,
    {
        CiPreflightRequest {
            examples: None,
            format: OutputFormat::Human,
            strict: false,
            output: None,
            profile_bundle: None,
            trust_mode: None,
            timeout_ms: None,
        }
    }
}

/// A request to run the demo.
pub struct DemoRequest {
    pub format: OutputFormat,
    pub profile_bundle: Option<String>,
    pub trust_mode: Option<String>,
    pub timeout_ms: Option<u64>,
}

impl Default for DemoRequest {
    /// Human output, no bundle, trust mode or timeout.
    fn default() -> (r: Self)
        ensures
            r.format == OutputFormat::Human,
            r.profile_bundle is None,
            r.trust_mode is None,
            r.timeout_ms is None,
    {
        DemoRequest { format: OutputFormat::Human, profile_bundle: None, trust_mode: None, timeout_ms: None }
    }
}

/// What a command printed and how it exited.
pub struct CommandOutput {
    pub stdout: String,
    pub stderr: String,
    pub exit_code: Option<i32>,
}

pub struct DoctorResponse<J> {
    pub result: String,
    pub output: CommandOutput,
    pub json: Option<J>,
}

pub struct VerifyResponse<J> {
    pub status: String,
    pub verdict: String,
    pub report_path: Option<String>,
    pub output: Option<CommandOutput>,
    pub json: Option<J>,
}

pub struct ExplainResponse<J> {
    pub result: String,
    pub output: CommandOutput,
    pub json: Option<J>,
}

pub struct SupportBundleResponse {
    pub bundle_path: Option<String>,
    pub output: CommandOutput,
}

pub struct CiPreflightResponse<J> {
    pub result: String,
    pub output: CommandOutput,
    pub json: Option<J>,
}

pub struct DemoResponse<J> {
    pub verify: VerifyResponse<J>,
    pub explain: ExplainResponse<J>,
}

/// Any response of the SDK.
pub enum SdkResponse<J> {
    Doctor(DoctorResponse<J>),
    Verify(VerifyResponse<J>),
    Explain(ExplainResponse<J>),
    SupportBundle(SupportBundleResponse),
    CiPreflight(CiPreflightResponse<J>),
    Demo(DemoResponse<J>),
}

} // verus!

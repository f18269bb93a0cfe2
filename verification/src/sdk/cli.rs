//! The command-line front end: the parsed arguments of each subcommand and the request
//! each one becomes.
use vstd::prelude::*;

use crate::casing::lowered;
use crate::sdk::{
    CiPreflightRequest, DemoRequest, DoctorRequest, ExplainRequest, OutputFormat, SdkError, SupportBundleRequest,
    VerifyRequest,
};
use crate::sdk_types::format as types_format;
use crate::text::trimmed;

verus! {

/// Arguments of `doctor`.
pub struct DoctorArgs {
    pub operation: Option<String>,
    pub profile_bundle: Option<String>,
    pub trust_mode: Option<String>,
    pub format: Option<String>,
    pub timeout_ms: Option<u64>,
}

/// Arguments of `verify`.
pub struct VerifyArgs {
    pub path: String,
    pub profile_bundle: Option<String>,
    pub trust_mode: Option<String>,
    pub format: Option<String>,
    pub timeout_ms: Option<u64>,
}

/// Arguments of `explain`.
pub struct ExplainArgs {
    pub report_path: Option<String>,
    pub format: Option<String>,
    pub renderer: Option<String>,
    pub timeout_ms: Option<u64>,
}

/// Arguments of `support-bundle`.
pub struct SupportBundleArgs {
    pub path: Option<String>,
    pub output: Option<String>,
    pub archive: bool,
    pub redact: bool,
    pub timeout_ms: Option<u64>,
}

/// Arguments of `ci-preflight`.
pub struct CiPreflightArgs {
    pub examples: Option<Vec<String>>,
    pub format: Option<String>,
    pub strict: bool,
    pub output: Option<String>,
    pub profile_bundle: Option<String>,
    pub trust_mode: Option<String>,
    pub timeout_ms: Option<u64>,
}

/// Arguments of `demo`.
pub struct DemoArgs {
    pub format: Option<String>,
    pub profile_bundle: Option<String>,
    pub trust_mode: Option<String>,
    pub timeout_ms: Option<u64>,
}

/// A subcommand with its arguments.
pub enum Command {
    Doctor(DoctorArgs),
    Verify(VerifyArgs),
    Explain(ExplainArgs),
    SupportBundle(SupportBundleArgs),
    CiPreflight(CiPreflightArgs),
    Demo(DemoArgs),
}

/// A parsed command line.
pub struct Cli {
    pub command: Command,
}

pub open spec fn sdk_format(f: types_format::OutputFormat) -> OutputFormat {
    match f {
        types_format::OutputFormat::Human => OutputFormat::Human,
        types_format::OutputFormat::Json => OutputFormat::Json,
        types_format::OutputFormat::Sarif => OutputFormat::Sarif,
    }
}

/// The format a `--format` value asks for: human when absent; else the name, trimmed and
/// lower-cased, must be `human`, `json` or `sarif`.
pub open spec fn spec_resolve_format(value: Option<String>) -> Result<OutputFormat, Seq<char>> {
    match value {
        None => Ok(OutputFormat::Human),
        Some(raw) => {
            let normalized = lowered(trimmed(raw@));
            match types_format::format_named(normalized) {
                Some(f) => Ok(sdk_format(f)),
                None => Err("unsupported output format: "@ + normalized),
            }
        },
    }
}

/// The output format of a `--format` value, or `ParseError` with the parser's message.
pub fn resolve_format(value: Option<String>) -> (r: Result<OutputFormat, SdkError>)
    ensures
        spec_resolve_format(value) matches Ok(f) ==> r == Ok::<OutputFormat, SdkError>(f),
        spec_resolve_format(value) matches Err(m) ==> (r matches Err(SdkError::ParseError(e)) && e@ == m),
{
    match value {
        None => Ok(OutputFormat::Human),
        Some(raw) => match types_format::OutputFormat::parse(raw.as_str()) {
            Ok(parsed) => Ok(match parsed {
                types_format::OutputFormat::Human => OutputFormat::Human,
                types_format::OutputFormat::Json => OutputFormat::Json,
                types_format::OutputFormat::Sarif => OutputFormat::Sarif,
            }),
            Err(err) => Err(SdkError::ParseError(err.message())),
        },
    }
}

/// The default time limit of the command line: the one a default doctor request has.
pub fn default_timeout_ms() -> (r: Option<u64>)
    ensures
        r is None,
{
    let request = DoctorRequest::default();
    request.timeout_ms
}

/// The time limit of a run: the one given, else the default.
pub fn resolve_timeout(timeout_ms: Option<u64>) -> (r: Option<u64>)
    ensures
        r == timeout_ms,
{
    match timeout_ms {
        Some(t) => Some(t),
        None => default_timeout_ms(),
    }
}

/// The doctor request of the arguments.
pub fn doctor_request(args: DoctorArgs) -> (r: Result<DoctorRequest, SdkError>)
    ensures
        spec_resolve_format(args.format) matches Err(m) ==> (r matches Err(SdkError::ParseError(e)) && e@ == m),
        spec_resolve_format(args.format) matches Ok(f) ==> (r matches Ok(q) && q.operation == args.operation
            && q.profile_bundle == args.profile_bundle && q.trust_mode == args.trust_mode && q.format == f
            && q.timeout_ms == args.timeout_ms),
{
    let format = resolve_format(args.format)?;
    Ok(DoctorRequest {
        operation: args.operation,
        profile_bundle: args.profile_bundle,
        trust_mode: args.trust_mode,
        format,
        timeout_ms: resolve_timeout(args.timeout_ms),
    })
}

/// The verify request of the arguments; no profile is chosen.
pub fn verify_request(args: VerifyArgs) -> (r: Result<VerifyRequest, SdkError>)
    ensures
        spec_resolve_format(args.format) matches Err(m) ==> (r matches Err(SdkError::ParseError(e)) && e@ == m),
        spec_resolve_format(args.format) matches Ok(f) ==> (r matches Ok(q) && q.target_path == args.path
            && q.profile_bundle == args.profile_bundle && q.trust_mode == args.trust_mode && q.profile is None
            && q.timeout_ms == args.timeout_ms && q.format == f),
{
    let format = resolve_format(args.format)?;
    Ok(VerifyRequest {
        target_path: args.path,
        profile_bundle: args.profile_bundle,
        trust_mode: args.trust_mode,
        profile: None,
        timeout_ms: resolve_timeout(args.timeout_ms),
        format,
    })
}

/// The explain request of the arguments.
pub fn explain_request(args: ExplainArgs) -> (r: Result<ExplainRequest, SdkError>)
    ensures
        spec_resolve_format(args.format) matches Err(m) ==> (r matches Err(SdkError::ParseError(e)) && e@ == m),
        spec_resolve_format(args.format) matches Ok(f) ==> (r matches Ok(q) && q.report_path == args.report_path
            && q.format == f && q.renderer == args.renderer && q.timeout_ms == args.timeout_ms),
{
    let format = resolve_format(args.format)?;
    Ok(ExplainRequest {
        report_path: args.report_path,
        format,
        renderer: args.renderer,
        timeout_ms: resolve_timeout(args.timeout_ms),
    })
}

/// The support-bundle request of the arguments; it is always rendered for people.
pub fn support_bundle_request(args: SupportBundleArgs) -> (r: (SupportBundleRequest, OutputFormat))
    ensures
        r.0.target_path == args.path,
        r.0.archive == args.archive,
        r.0.output == args.output,
        r.0.redact == args.redact,
        r.0.timeout_ms == args.timeout_ms,
        r.1 == OutputFormat::Human,
{
    (SupportBundleRequest {
        target_path: args.path,
        archive: args.archive,
        output: args.output,
        redact: args.redact,
        timeout_ms: resolve_timeout(args.timeout_ms),
    }, OutputFormat::Human)
}

/// The CI preflight request of the arguments.
pub fn ci_preflight_request(args: CiPreflightArgs) -> (r: Result<CiPreflightRequest, SdkError>)
    ensures
        spec_resolve_format(args.format) matches Err(m) ==> (r matches Err(SdkError::ParseError(e)) && e@ == m),
        spec_resolve_format(args.format) matches Ok(f) ==> (r matches Ok(q) && q.examples == args.examples
            && q.format == f && q.strict == args.strict && q.output == args.output
            && q.profile_bundle == args.profile_bundle && q.trust_mode == args.trust_mode
            && q.timeout_ms == args.timeout_ms),
{
    let format = resolve_format(args.format)?;
    Ok(CiPreflightRequest {
        examples: args.examples,
        format,
        strict: args.strict,
        output: args.output,
        profile_bundle: args.profile_bundle,
        trust_mode: args.trust_mode,
        timeout_ms: resolve_timeout(args.timeout_ms),
    })
}

/// The demo request of the arguments.
pub fn demo_request(args: DemoArgs) -> (r: Result<DemoRequest, SdkError>)
    ensures
        spec_resolve_format(args.format) matches Err(m) ==> (r matches Err(SdkError::ParseError(e)) && e@ == m),
        spec_resolve_format(args.format) matches Ok(f) ==> (r matches Ok(q) && q.format == f
            && q.profile_bundle == args.profile_bundle && q.trust_mode == args.trust_mode
            && q.timeout_ms == args.timeout_ms),
{
    let format = resolve_format(args.format)?;
    Ok(DemoRequest {
        format,
        profile_bundle: args.profile_bundle,
        trust_mode: args.trust_mode,
        timeout_ms: resolve_timeout(args.timeout_ms),
    })
}

} // verus!

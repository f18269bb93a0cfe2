//! Requests of the SDK's shared types. Paths are held as text.
use vstd::prelude::*;

use crate::sdk_types::format::OutputFormat;

verus! {

/// A request to check the environment.
pub struct DoctorRequest {
    pub operation: Option<String>,
    pub profile_bundle: Option<String>,
    pub trust_mode: Option<String>,
    pub format: OutputFormat,
    pub timeout_ms: Option<u64>,
}

impl Default for DoctorRequest {
    /// No operation, bundle or trust mode, human output, no timeout.
    fn default() -> (r: Self)
        ensures
            r.operation is None,
            r.profile_bundle is None,
            r.trust_mode is None,
            r.format == OutputFormat::Human,
            r.timeout_ms is None,
    {
        DoctorRequest {
            operation: None,
            profile_bundle: None,
            trust_mode: None,
            format: OutputFormat::Human,
            timeout_ms: None,
        }
    }
}

/// A request to verify an evidence bundle.
pub struct VerifyRequest {
    pub target_path: String,
    pub profile_bundle: Option<String>,
    pub trust_mode: Option<String>,
    pub profile: Option<String>,
    pub format: OutputFormat,
    pub timeout_ms: Option<u64>,
}

/// A request to explain a report.
pub struct ExplainRequest {
    pub report_path: Option<String>,
    pub format: OutputFormat,
    pub renderer: Option<String>,
    pub timeout_ms: Option<u64>,
}

impl Default for ExplainRequest {
    /// The last report, human output, default renderer, no timeout.
    fn default() -> (r: Self)
        ensures
            r.report_path is None,
            r.format == OutputFormat::Human,
            r.renderer is None,
            r.timeout_ms is None,
    {
        ExplainRequest { report_path: None, format: OutputFormat::Human, renderer: None, timeout_ms: None }
    }
}

/// A request to gather a support bundle.
pub struct SupportBundleRequest {
    pub target_path: Option<String>,
    pub archive: bool,
    pub output: Option<String>,
    pub redact: bool,
    pub timeout_ms: Option<u64>,
}

impl Default for SupportBundleRequest {
    /// The current directory, no archive, default output, no redaction, no timeout.
    fn default() -> (r: Self)
        ensures
            r.target_path is None,
            !r.archive,
            r.output is None,
            !r.redact,
            r.timeout_ms is None,
    {
        SupportBundleRequest { target_path: None, archive: false, output: None, redact: false, timeout_ms: None }
    }
}

/// A request to run the CI preflight.
pub struct CiPreflightRequest {
    pub examples: Option<Vec<String>>,
    pub format: OutputFormat,
    pub strict: bool,
    pub output: Option<String>,
    pub profile_bundle: Option<String>,
    pub trust_mode: Option<String>,
    pub timeout_ms: Option<u64>,
}

impl Default for CiPreflightRequest {
    /// The default examples, human output, not strict, no output file, bundle, trust mode or timeout.
    fn default() -> (r: Self)
        ensures
            r.examples is None,
            r.format == OutputFormat::Human,
            !r.strict,
            r.output is None,
            r.profile_bundle is None,
            r.trust_mode is None,
            r.timeout_ms is None,
    {
        CiPreflightRequest {
            examples: None,
            format: OutputFormat::Human,
            strict: false,
            output: None,
            profile_bundle: None,
            trust_mode: None,
            timeout_ms: None,
        }
    }
}

/// A request to run the demo.
pub struct DemoRequest {
    pub format: OutputFormat,
    pub profile_bundle: Option<String>,
    pub trust_mode: Option<String>,
    pub timeout_ms: Option<u64>,
}

impl Default for DemoRequest {
    /// Human output, no bundle, trust mode or timeout.
    fn default() -> (r: Self)
        ensures
            r.format == OutputFormat::Human,
            r.profile_bundle is None,
            r.trust_mode is None,
            r.timeout_ms is None,
    {
        DemoRequest { format: OutputFormat::Human, profile_bundle: None, trust_mode: None, timeout_ms: None }
    }
}

} // verus!

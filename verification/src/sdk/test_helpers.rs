//! Helpers for exercising the SDK end to end: a seeded bundle, and the step from a
//! verification to the explanation of its report.
use vstd::prelude::*;
use vstd::string::*;

use crate::sdk::{ExplainRequest, OutputFormat, SdkError, VerifyRequest, VerifyResponse};

verus! {

/// The seeded evidence bundle, as JSON text.
pub const SEEDED_BUNDLE: &'static str = "{\"bundle\":\"seeded\",\"version\":1,\"entries\":[{\"id\":\"alpha\",\"value\":true}]}";

/// The bytes of the seeded bundle.
pub fn seeded_bundle_bytes() -> (r: Vec<u8>)
    ensures
        r@ == SEEDED_BUNDLE.spec_bytes(),
{
    vstd::slice::slice_to_vec(SEEDED_BUNDLE.as_bytes())
}

/// A JSON verification of `path` with no bundle, trust mode, profile or time limit.
pub fn verify_request_for(path: &str) -> (r: VerifyRequest)
    ensures
        r.target_path@ == path@,
        r.profile_bundle is None,
        r.trust_mode is None,
        r.profile is None,
        r.timeout_ms is None,
        r.format == OutputFormat::Json,
{
    VerifyRequest {
        target_path: path.to_string(),
        profile_bundle: None,
        trust_mode: None,
        profile: None,
        timeout_ms: None,
        format: OutputFormat::Json,
    }
}

/// The step between a verification and its explanation: the verification is carried on
/// with a JSON explain request for its report, or, when it names no report,
/// `ParseError("verify response missing report path")`.
pub fn assert_verify_and_explain<J>(verify: VerifyResponse<J>) -> (r: Result<(VerifyResponse<J>, ExplainRequest), SdkError>)
    ensures
        verify.report_path is None ==> (r matches Err(SdkError::ParseError(m))
            && m@ == "verify response missing report path"@),
        verify.report_path matches Some(p) ==> (r matches Ok((v, e)) && {
            &&& v == verify
            &&& e.report_path matches Some(q) && q@ == p@
            &&& e.format == OutputFormat::Json
            &&& e.renderer is None
            &&& e.timeout_ms is None
        }),
{
    let report_path = match &verify.report_path {
        Some(p) => p.clone(),
        None => {
            return Err(SdkError::ParseError("verify response missing report path".to_string()));
        },
    };
    let explain_request = ExplainRequest {
        report_path: Some(report_path),
        format: OutputFormat::Json,
        renderer: None,
        timeout_ms: None,
    };
    Ok((verify, explain_request))
}

} // verus!

//! Ready-made verify requests for the repository's examples.
use vstd::prelude::*;
use vstd::string::*;

use crate::sdk::{OutputFormat, VerifyRequest};

verus! {

/// The path of an example directory: `examples/<name>`.
pub fn example_path(example: &str) -> (r: String)
    ensures
        r@ == "examples/"@ + example@,
{
    "examples/".to_owned().concat(example)
}

/// The minimal local example: dev-local bundle and trust mode, `uas-small`, JSON output.
pub fn minimal_local() -> (r: VerifyRequest)
    ensures
        r.target_path@ == "examples/"@ + "minimal-local"@,
        r.profile_bundle matches Some(b) && b@ == "dev-local@1.0.0"@,
        r.trust_mode matches Some(t) && t@ == "dev-local"@,
        r.profile matches Some(p) && p@ == "uas-small"@,
        r.timeout_ms is None,
        r.format == OutputFormat::Json,
{
    VerifyRequest {
        target_path: example_path("minimal-local"),
        profile_bundle: Some("dev-local@1.0.0".to_owned()),
        trust_mode: Some("dev-local".to_owned()),
        profile: Some("uas-small".to_owned()),
        timeout_ms: None,
        format: OutputFormat::Json,
    }
}

/// The minimal signed example: staging-signed bundle and trust mode, `fixed-wing`, JSON output.
pub fn minimal_signed() -> (r: VerifyRequest)
    ensures
        r.target_path@ == "examples/"@ + "minimal-signed"@,
        r.profile_bundle matches Some(b) && b@ == "staging-signed@1.0.0"@,
        r.trust_mode matches Some(t) && t@ == "staging-signed"@,
        r.profile matches Some(p) && p@ == "fixed-wing"@,
        r.timeout_ms is None,
        r.format == OutputFormat::Json,
{
    VerifyRequest {
        target_path: example_path("minimal-signed"),
        profile_bundle: Some("staging-signed@1.0.0".to_owned()),
        trust_mode: Some("staging-signed".to_owned()),
        profile: Some("fixed-wing".to_owned()),
        timeout_ms: None,
        format: OutputFormat::Json,
    }
}

/// The minimal replay example: dev-local bundle and trust mode, `hybrid-vtol`, JSON output.
pub fn minimal_replay() -> (r: VerifyRequest)
    ensures
        r.target_path@ == "examples/"@ + "minimal-replay"@,
        r.profile_bundle matches Some(b) && b@ == "dev-local@1.0.0"@,
        r.trust_mode matches Some(t) && t@ == "dev-local"@,
        r.profile matches Some(p) && p@ == "hybrid-vtol"@,
        r.timeout_ms is None,
        r.format == OutputFormat::Json,
{
    VerifyRequest {
        target_path: example_path("minimal-replay"),
        profile_bundle: Some("dev-local@1.0.0".to_owned()),
        trust_mode: Some("dev-local".to_owned()),
        profile: Some("hybrid-vtol".to_owned()),
        timeout_ms: None,
        format: OutputFormat::Json,
    }
}

} // verus!

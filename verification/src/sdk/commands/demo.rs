//! The demo: verify the minimal local example, then explain the result.
use vstd::prelude::*;
use vstd::string::*;

use crate::sdk::{DemoRequest, ExplainRequest, VerifyRequest};

verus! {

fn copy_text(o: &Option<String>) -> (r: Option<String>)
    ensures
        r is Some <==> o is Some,
        r is Some ==> r->0@ == o->0@,
{
    match o {
        Some(s) => Some(s.clone()),
        None => None,
    }
}

/// The verify and explain requests of a demo run: `examples/minimal-local` is verified
/// with the demo's bundle, trust mode, format and timeout, and the last report is explained.
pub fn build_demo_requests(request: &DemoRequest) -> (r: (VerifyRequest, ExplainRequest))
    ensures
        r.0.target_path@ == "examples/minimal-local"@,
        r.0.profile_bundle is Some <==> request.profile_bundle is Some,
        r.0.profile_bundle is Some ==> r.0.profile_bundle->0@ == request.profile_bundle->0@,
        r.0.trust_mode is Some <==> request.trust_mode is Some,
        r.0.trust_mode is Some ==> r.0.trust_mode->0@ == request.trust_mode->0@,
        r.0.profile is None,
        r.0.timeout_ms == request.timeout_ms,
        r.0.format == request.format,
        r.1.report_path is None,
        r.1.format == request.format,
        r.1.renderer is None,
        r.1.timeout_ms == request.timeout_ms,
{
    let verify = VerifyRequest {
        target_path: "examples/minimal-local".to_owned(),
        profile_bundle: copy_text(&request.profile_bundle),
        trust_mode: copy_text(&request.trust_mode),
        profile: None,
        timeout_ms: request.timeout_ms,
        format: request.format,
    };
    let explain = ExplainRequest {
        report_path: None,
        format: request.format,
        renderer: None,
        timeout_ms: request.timeout_ms,
    };
    (verify, explain)
}

} // verus!

//! Responses of the SDK's shared types. `J` is the type of a parsed JSON document, which
//! the responses carry unread.
use vstd::prelude::*;

verus! {

/// What a command printed.
pub struct CommandOutput {
    pub stdout: String,
    pub stderr: String,
}

pub struct DoctorResponse<J> {
    pub result: String,
    pub output: CommandOutput,
    pub json: Option<J>,
}

pub struct VerifyResponse<J> {
    pub status: String,
    pub verdict: String,
    pub report_path: Option<String>,
    pub output: Option<CommandOutput>,
    pub json: Option<J>,
}

pub struct ExplainResponse<J> {
    pub result: String,
    pub output: CommandOutput,
    pub json: Option<J>,
}

pub struct SupportBundleResponse {
    pub bundle_path: Option<String>,
    pub output: CommandOutput,
}

pub struct CiPreflightResponse<J> {
    pub result: String,
    pub output: CommandOutput,
    pub json: Option<J>,
}

pub struct DemoResponse<J> {
    pub verify: VerifyResponse<J>,
    pub explain: ExplainResponse<J>,
}

} // verus!

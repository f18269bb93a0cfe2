//! The SDK client: how each operation invokes `tasc`, and what the client makes of what
//! `tasc` printed. Running the process is the caller's part; the client says what to run
//! and reads the result.
use vstd::prelude::*;
use vstd::string::*;

use crate::casing::{spec_to_uppercase, to_uppercase};
use crate::sdk::commands;
use crate::sdk::commands::ci_preflight::ci_preflight_args;
use crate::sdk::commands::doctor::doctor_args;
use crate::sdk::commands::explain::explain_args;
use crate::sdk::commands::support_bundle::support_bundle_args;
use crate::sdk::commands::verify::verify_args;
use crate::sdk::diagnostics::{self, DiagnosticProbes, DiagnosticReport, RepoProbe, ToolProbe};
use crate::sdk::paths::{report_path, spec_report_path};
use crate::sdk::reports::{result_from_json, spec_outcome, JsonFields};
use crate::sdk::{
    CiPreflightRequest, CiPreflightResponse, CommandOutput, DoctorRequest, DoctorResponse, ExplainRequest,
    ExplainResponse, OutputFormat, SdkError, SupportBundleRequest, SupportBundleResponse, VerifyRequest,
    VerifyResponse,
};
use crate::text::{concat_str, seq_contains, str_contains, strings_view, trim_str, trimmed};

verus! {

/// How the SDK finds the repository and the `tasc` tool, and how long it lets `tasc` run.
pub struct SdkConfig {
    pub repo_root: Option<String>,
    pub tasc_path: Option<String>,
    pub timeout_ms: Option<u64>,
}

impl Default for SdkConfig {
    /// Nothing configured.
    fn default() -> (r: Self)
        ensures
            r.repo_root is None,
            r.tasc_path is None,
            r.timeout_ms is None,
    {
        SdkConfig { repo_root: None, tasc_path: None, timeout_ms: None }
    }
}

/// One run of `tasc`: the program, the directory it runs in, its arguments, how long it
/// may run (none: no limit), and whether a non-zero exit is an answer rather than an error.
pub struct Invocation {
    pub program: String,
    pub current_dir: String,
    pub args: Vec<String>,
    pub timeout_ms: Option<u64>,
    pub allow_failure: bool,
}

/// How a run of `tasc` ended: whether it exited successfully, its exit code (none when a
/// signal ended it), and what it printed.
pub struct CommandResult {
    pub success: bool,
    pub code: Option<i32>,
    pub stdout: String,
    pub stderr: String,
}

/// A client bound to a repository and a `tasc` tool.
pub struct SdkClient {
    config: SdkConfig,
    repo_root: String,
    tasc_path: String,
}

/// The outcome `tasc` printed in plain text: `FAIL`, `WARN` or `PASS`, the first of them
/// found anywhere in the upper-cased output and error output.
pub open spec fn spec_output_outcome(o: CommandOutput) -> Option<Seq<char>> {
    let upper = spec_to_uppercase(o.stdout@ + " "@ + o.stderr@);
    if seq_contains(upper, "FAIL"@) {
        Some("FAIL"@)
    } else if seq_contains(upper, "WARN"@) {
        Some("WARN"@)
    } else if seq_contains(upper, "PASS"@) {
        Some("PASS"@)
    } else {
        None
    }
}

/// The outcome of a run: what its JSON output states, else what its text says, else
/// `UNKNOWN`.
pub open spec fn spec_result_value(json: Option<JsonFields>, o: CommandOutput) -> Seq<char> {
    let from_json = match json {
        Some(j) => spec_outcome(j),
        None => None,
    };
    match from_json {
        Some(s) => s,
        None => match spec_output_outcome(o) {
            Some(s) => s,
            None => "UNKNOWN"@,
        },
    }
}

pub open spec fn output_of(result: CommandResult) -> CommandOutput {
    CommandOutput { stdout: result.stdout, stderr: result.stderr, exit_code: result.code }
}

/// The outcome stated in a run's text output, if any.
pub fn result_from_output(output: &CommandOutput) -> (r: Option<String>)
    ensures
        match r {
            Some(s) => spec_output_outcome(*output) == Some(s@),
            None => spec_output_outcome(*output) is None,
        },
{
    let head = concat_str(output.stdout.as_str(), " ");
    let combined = concat_str(head.as_str(), output.stderr.as_str());
    let upper = to_uppercase(combined.as_str());
    proof {
        reveal_strlit("FAIL");
        reveal_strlit("WARN");
        reveal_strlit("PASS");
    }
    if str_contains(upper.as_str(), "FAIL") {
        Some("FAIL".to_string())
    } else if str_contains(upper.as_str(), "WARN") {
        Some("WARN".to_string())
    } else if str_contains(upper.as_str(), "PASS") {
        Some("PASS".to_string())
    } else {
        None
    }
}

/// The outcome of a run, from its JSON output first, then from its text.
pub fn result_value(json: Option<&JsonFields>, output: &CommandOutput) -> (r: String)
    ensures
        r@ == spec_result_value(match json {
            Some(j) => Some(*j),
            None => None,
        }, *output),
{
    match result_from_json(json) {
        Some(s) => s,
        None => match result_from_output(output) {
            Some(s) => s,
            None => "UNKNOWN".to_string(),
        },
    }
}

/// What a run printed and how it exited.
pub fn command_output(result: &CommandResult) -> (r: CommandOutput)
    ensures
        r.stdout@ == result.stdout@,
        r.stderr@ == result.stderr@,
        r.exit_code == result.code,
{
    CommandOutput { stdout: result.stdout.clone(), stderr: result.stderr.clone(), exit_code: result.code }
}

/// A run that must succeed: its result when it did, else `CommandFailed` with its exit
/// code and output.
pub fn checked(result: CommandResult) -> (r: Result<CommandResult, SdkError>)
    ensures
        result.success ==> r == Ok::<CommandResult, SdkError>(result),
        !result.success ==> (r matches Err(SdkError::CommandFailed { code, stdout, stderr })
            && code == result.code && stdout@ == result.stdout@ && stderr@ == result.stderr@),
{
    if !result.success {
        return Err(SdkError::CommandFailed { code: result.code, stdout: result.stdout, stderr: result.stderr });
    }
    Ok(result)
}

/// What the runner does next while `tasc` runs.
pub enum RunnerAction {
    /// Wait for the process to end and collect its output.
    Collect,
    /// The time limit has passed: kill the process, collect what it printed and fail with
    /// `Timeout` after that many milliseconds.
    KillForTimeout { after_ms: u64 },
    /// Look again after sleeping that many milliseconds.
    Sleep { ms: u64 },
}

/// The runner's next step: with no time limit it simply waits; under a limit it polls,
/// collecting once the process has exited, killing it once the limit is reached, and
/// otherwise sleeping 25 ms.
pub fn runner_step(exited: bool, elapsed_ms: u64, timeout_ms: Option<u64>) -> (r: RunnerAction)
    ensures
        timeout_ms is None ==> r is Collect,
        timeout_ms matches Some(t) ==> (if exited {
            r is Collect
        } else if elapsed_ms >= t {
            r matches RunnerAction::KillForTimeout { after_ms } && after_ms == t
        } else {
            r matches RunnerAction::Sleep { ms } && ms == 25
        }),
{
    match timeout_ms {
        None => RunnerAction::Collect,
        Some(t) => if exited {
            RunnerAction::Collect
        } else if elapsed_ms >= t {
            RunnerAction::KillForTimeout { after_ms: t }
        } else {
            RunnerAction::Sleep { ms: 25 }
        },
    }
}

/// The error of a run killed at its time limit, with what it had printed.
pub fn timeout_error(after_ms: u64, stdout: String, stderr: String) -> (r: SdkError)
    ensures
        r matches SdkError::Timeout { after_ms: a, stdout: o, stderr: e } && a == after_ms && o@ == stdout@
            && e@ == stderr@,
{
    SdkError::Timeout { after_ms, stdout, stderr }
}

impl SdkClient {
    pub closed spec fn spec_config_timeout(&self) -> Option<u64> {
        self.config.timeout_ms
    }

    pub closed spec fn spec_config_root(&self) -> Option<String> {
        self.config.repo_root
    }

    pub closed spec fn spec_repo_root(&self) -> Seq<char> {
        self.repo_root@
    }

    pub closed spec fn spec_tasc_path(&self) -> Seq<char> {
        self.tasc_path@
    }

    /// A client for a resolved repository root and `tasc` path.
    pub fn from_resolved(config: SdkConfig, repo_root: String, tasc_path: String) -> (r: Self)
        ensures
            r.spec_config_timeout() == config.timeout_ms,
            r.spec_config_root() == config.repo_root,
            r.spec_repo_root() == repo_root@,
            r.spec_tasc_path() == tasc_path@,
    {
        SdkClient { config, repo_root, tasc_path }
    }

    /// The repository the client works in.
    pub fn repo_root(&self) -> (r: &str)
        ensures
            r@ == self.spec_repo_root(),
    {
        self.repo_root.as_str()
    }

    /// The `tasc` tool the client runs.
    pub fn tasc_path(&self) -> (r: &str)
        ensures
            r@ == self.spec_tasc_path(),
    {
        self.tasc_path.as_str()
    }

    /// The time limit of a run: the request's, else the configured one.
    pub fn resolve_timeout(&self, request_timeout: Option<u64>) -> (r: Option<u64>)
        ensures
            r == (match request_timeout {
                Some(t) => Some(t),
                None => self.spec_config_timeout(),
            }),
    {
        match request_timeout {
            Some(t) => Some(t),
            None => self.config.timeout_ms,
        }
    }

    fn invocation(&self, args: Vec<String>, timeout_ms: Option<u64>, allow_failure: bool) -> (r: Invocation)
        ensures
            r.program@ == self.spec_tasc_path(),
            r.current_dir@ == self.spec_repo_root(),
            r.args@ == args@,
            r.timeout_ms == (match timeout_ms {
                Some(t) => Some(t),
                None => self.spec_config_timeout(),
            }),
            r.allow_failure == allow_failure,
    {
        Invocation {
            program: self.tasc_path.clone(),
            current_dir: self.repo_root.clone(),
            args,
            timeout_ms: self.resolve_timeout(timeout_ms),
            allow_failure,
        }
    }

    /// How to run `tasc doctor` for a request; a non-zero exit is an answer.
    pub fn doctor_invocation(&self, request: &DoctorRequest) -> (r: Result<Invocation, SdkError>)
        ensures
            request.format == OutputFormat::Sarif ==> (r matches Err(SdkError::UnsupportedFormat(f))
                && f == OutputFormat::Sarif),
            request.format != OutputFormat::Sarif ==> (r matches Ok(inv)
                && strings_view(inv.args@) == doctor_args(*request)
                && inv.program@ == self.spec_tasc_path()
                && inv.current_dir@ == self.spec_repo_root()
                && inv.timeout_ms == (match request.timeout_ms {
                    Some(t) => Some(t),
                    None => self.spec_config_timeout(),
                })
                && inv.allow_failure),
    {
        let args = commands::doctor::build_args(request)?;
        Ok(self.invocation(args, request.timeout_ms, true))
    }

    /// How to run `tasc verify` for a request; a non-zero exit is an answer.
    pub fn verify_invocation(&self, request: &VerifyRequest) -> (r: Result<Invocation, SdkError>)
        ensures
            r matches Ok(inv)
                && strings_view(inv.args@) == verify_args(*request)
                && inv.program@ == self.spec_tasc_path()
                && inv.current_dir@ == self.spec_repo_root()
                && inv.timeout_ms == (match request.timeout_ms {
                    Some(t) => Some(t),
                    None => self.spec_config_timeout(),
                })
                && inv.allow_failure,
    {
        let args = commands::verify::build_args(request)?;
        Ok(self.invocation(args, request.timeout_ms, true))
    }

    /// How to run `tasc explain` for a request; a non-zero exit is an answer.
    pub fn explain_invocation(&self, request: &ExplainRequest) -> (r: Result<Invocation, SdkError>)
        ensures
            r matches Ok(inv)
                && strings_view(inv.args@) == explain_args(*request)
                && inv.program@ == self.spec_tasc_path()
                && inv.current_dir@ == self.spec_repo_root()
                && inv.timeout_ms == (match request.timeout_ms {
                    Some(t) => Some(t),
                    None => self.spec_config_timeout(),
                })
                && inv.allow_failure,
    {
        let args = commands::explain::build_args(request)?;
        Ok(self.invocation(args, request.timeout_ms, true))
    }

    /// How to run `tasc support-bundle` for a request; it must exit successfully.
    pub fn support_bundle_invocation(&self, request: &SupportBundleRequest) -> (r: Result<Invocation, SdkError>)
        ensures
            r matches Ok(inv)
                && strings_view(inv.args@) == support_bundle_args(*request)
                && inv.program@ == self.spec_tasc_path()
                && inv.current_dir@ == self.spec_repo_root()
                && inv.timeout_ms == (match request.timeout_ms {
                    Some(t) => Some(t),
                    None => self.spec_config_timeout(),
                })
                && !inv.allow_failure,
    {
        let args = commands::support_bundle::build_args(request)?;
        Ok(self.invocation(args, request.timeout_ms, false))
    }

    /// How to run `tasc ci-preflight` for a request; a non-zero exit is an answer.
    pub fn ci_preflight_invocation(&self, request: &CiPreflightRequest) -> (r: Result<Invocation, SdkError>)
        ensures
            request.format == OutputFormat::Sarif ==> (r matches Err(SdkError::UnsupportedFormat(f))
                && f == OutputFormat::Sarif),
            request.format != OutputFormat::Sarif ==> (r matches Ok(inv)
                && strings_view(inv.args@) == ci_preflight_args(*request)
                && inv.program@ == self.spec_tasc_path()
                && inv.current_dir@ == self.spec_repo_root()
                && inv.timeout_ms == (match request.timeout_ms {
                    Some(t) => Some(t),
                    None => self.spec_config_timeout(),
                })
                && inv.allow_failure),
    {
        let args = commands::ci_preflight::build_args(request)?;
        Ok(self.invocation(args, request.timeout_ms, true))
    }

    /// The doctor response of a run, given its JSON output (parsed by the caller) and that
    /// output's top-level fields.
    pub fn doctor_response<J>(result: &CommandResult, json: Option<J>, fields: Option<&JsonFields>) -> (r:
        DoctorResponse<J>)
        ensures
            r.result@ == spec_result_value(match fields {
                Some(j) => Some(*j),
                None => None,
            }, output_of(*result)),
            r.output.stdout@ == result.stdout@,
            r.output.stderr@ == result.stderr@,
            r.output.exit_code == result.code,
            r.json == json,
    {
        let output = command_output(result);
        let value = result_value(fields, &output);
        DoctorResponse { result: value, output, json }
    }

    /// The explain response of a run.
    pub fn explain_response<J>(result: &CommandResult, json: Option<J>, fields: Option<&JsonFields>) -> (r:
        ExplainResponse<J>)
        ensures
            r.result@ == spec_result_value(match fields {
                Some(j) => Some(*j),
                None => None,
            }, output_of(*result)),
            r.output.stdout@ == result.stdout@,
            r.output.stderr@ == result.stderr@,
            r.output.exit_code == result.code,
            r.json == json,
    {
        let output = command_output(result);
        let value = result_value(fields, &output);
        ExplainResponse { result: value, output, json }
    }

    /// The CI preflight response of a run.
    pub fn ci_preflight_response<J>(result: &CommandResult, json: Option<J>, fields: Option<&JsonFields>) -> (r:
        CiPreflightResponse<J>)
        ensures
            r.result@ == spec_result_value(match fields {
                Some(j) => Some(*j),
                None => None,
            }, output_of(*result)),
            r.output.stdout@ == result.stdout@,
            r.output.stderr@ == result.stderr@,
            r.output.exit_code == result.code,
            r.json == json,
    {
        let output = command_output(result);
        let value = result_value(fields, &output);
        CiPreflightResponse { result: value, output, json }
    }

    /// The verify response of a run: its outcome as both status and verdict, and the last
    /// report's path when that file exists.
    pub fn verify_response<J>(&self, result: &CommandResult, json: Option<J>, fields: Option<&JsonFields>,
        report_exists: bool) -> (r: VerifyResponse<J>)
        ensures
            r.verdict@ == spec_result_value(match fields {
                Some(j) => Some(*j),
                None => None,
            }, output_of(*result)),
            r.status@ == r.verdict@,
            report_exists <==> r.report_path is Some,
            r.report_path matches Some(p) ==> p@ == spec_report_path(self.spec_repo_root()),
            r.output matches Some(o) && o.stdout@ == result.stdout@ && o.stderr@ == result.stderr@
                && o.exit_code == result.code,
            r.json == json,
    {
        let output = command_output(result);
        let verdict = result_value(fields, &output);
        let status = verdict.clone();
        let path = if report_exists { Some(report_path(self.repo_root.as_str())) } else { None };
        VerifyResponse { status, verdict, report_path: path, output: Some(output), json }
    }

    /// The support-bundle response of a run that must succeed: the bundle path is the
    /// trimmed output, none when that is empty.
    pub fn support_bundle(&self, result: CommandResult) -> (r: Result<SupportBundleResponse, SdkError>)
        ensures
            !result.success ==> (r matches Err(SdkError::CommandFailed { code, stdout, stderr })
                && code == result.code && stdout@ == result.stdout@ && stderr@ == result.stderr@),
            result.success ==> (r matches Ok(resp) && {
                &&& resp.output.stdout@ == result.stdout@
                &&& resp.output.stderr@ == result.stderr@
                &&& resp.output.exit_code == result.code
                &&& (trimmed(result.stdout@).len() == 0 <==> resp.bundle_path is None)
                &&& (resp.bundle_path matches Some(p) ==> p@ == trimmed(result.stdout@))
            }),
    {
        let result = checked(result)?;
        let output = command_output(&result);
        let path = trim_str(output.stdout.as_str());
        let bundle_path = if path.unicode_len() == 0 { None } else { Some(path) };
        Ok(SupportBundleResponse { bundle_path, output })
    }

    /// Where the client's diagnostics start: the configured root, else the resolved one.
    pub open spec fn spec_diagnostics_start(&self) -> Seq<char> {
        match self.spec_config_root() {
            Some(p) => p@,
            None => self.spec_repo_root(),
        }
    }

    /// Where the client's diagnostics start.
    pub fn diagnostics_start(&self) -> (r: String)
        ensures
            r@ == self.spec_diagnostics_start(),
    {
        match &self.config.repo_root {
            Some(p) => p.clone(),
            None => self.repo_root.clone(),
        }
    }

    /// The diagnostics report of the client's environment, from the probes made from its
    /// start path.
    pub fn diagnostics(&self, repo: Option<RepoProbe>, rustc: ToolProbe, cargo: ToolProbe) -> (r: DiagnosticReport)
        ensures
            diagnostics::findings_view(r.findings@) == diagnostics::findings_from(self.spec_diagnostics_start(),
                repo, rustc, cargo),
            diagnostics::context_view(r.context@) == diagnostics::context_from(self.spec_diagnostics_start(),
                repo, rustc, cargo),
            r.result@ == diagnostics::spec_overall(r.findings@),
    {
        let start_path = self.diagnostics_start();
        let probes = DiagnosticProbes { start_path, repo, rustc, cargo };
        diagnostics::run(&probes)
    }
}

} // verus!

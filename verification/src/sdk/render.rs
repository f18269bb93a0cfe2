//! Rendering SDK responses: the one-line human summaries, the choice between formats,
//! and the HTML page an export wraps a body in.
use vstd::prelude::*;
use vstd::string::*;

use crate::sdk::{
    CiPreflightResponse, DemoResponse, DoctorResponse, ExplainResponse, OutputFormat, SdkError, SdkResponse,
    SupportBundleResponse, VerifyResponse,
};
use crate::text::concat_str;

verus! {

pub open spec fn path_or_none(p: Option<String>) -> Seq<char> {
    match p {
        Some(s) => s@,
        None => "none"@,
    }
}

/// The one-line human summary of a response.
pub open spec fn spec_human<J>(response: SdkResponse<J>) -> Seq<char> {
    match response {
        SdkResponse::Doctor(r) => "doctor: "@ + r.result@,
        SdkResponse::Verify(r) => "verify: "@ + r.status@ + " (verdict="@ + r.verdict@ + ", report="@
            + path_or_none(r.report_path) + ")"@,
        SdkResponse::Explain(r) => "explain: "@ + r.result@,
        SdkResponse::SupportBundle(r) => "support-bundle: "@ + path_or_none(r.bundle_path),
        SdkResponse::CiPreflight(r) => "ci-preflight: "@ + r.result@,
        SdkResponse::Demo(r) => "demo: verify="@ + r.verify.status@ + " explain="@ + r.explain.result@,
    }
}

fn path_text(p: &Option<String>) -> (r: String)
    ensures
        r@ == path_or_none(*p),
{
    match p {
        Some(s) => s.clone(),
        None => "none".to_string(),
    }
}

/// The one-line human summary of a response.
pub fn render_human_response<J>(response: &SdkResponse<J>) -> (r: String)
    ensures
        r@ == spec_human(*response),
{
    match response {
        SdkResponse::Doctor(DoctorResponse { result, .. }) => concat_str("doctor: ", result.as_str()),
        SdkResponse::Verify(VerifyResponse { status, verdict, report_path, .. }) => {
            let report = path_text(report_path);
            let a = concat_str("verify: ", status.as_str());
            let b = concat_str(a.as_str(), " (verdict=");
            let c = concat_str(b.as_str(), verdict.as_str());
            let d = concat_str(c.as_str(), ", report=");
            let e = concat_str(d.as_str(), report.as_str());
            concat_str(e.as_str(), ")")
        },
        SdkResponse::Explain(ExplainResponse { result, .. }) => concat_str("explain: ", result.as_str()),
        SdkResponse::SupportBundle(SupportBundleResponse { bundle_path, .. }) => {
            let path = path_text(bundle_path);
            concat_str("support-bundle: ", path.as_str())
        },
        SdkResponse::CiPreflight(CiPreflightResponse { result, .. }) => concat_str("ci-preflight: ", result.as_str()),
        SdkResponse::Demo(DemoResponse { verify, explain }) => {
            let a = concat_str("demo: verify=", verify.status.as_str());
            let b = concat_str(a.as_str(), " explain=");
            concat_str(b.as_str(), explain.result.as_str())
        },
    }
}

/// How a response is rendered for people and as JSON. The SDK's default renderers
/// implement it where JSON is serialised, outside this library; a caller may supply its own.
pub trait Renderer<J> {
    /// The response rendered for people.
    fn render_human(&self, response: &SdkResponse<J>) -> String;

    /// The response rendered as JSON.
    fn render_json(&self, response: &SdkResponse<J>) -> Result<String, SdkError>;
}

/// A response rendered in a format: what `human` gives for it, what `json` gives for it
/// (error included), or `UnsupportedFormat` for SARIF. Only the rendering the format asks
/// for is called, once.
pub fn render_with_format<J, H, K>(response: &SdkResponse<J>, format: OutputFormat, human: H, json: K) -> (r:
    Result<String, SdkError>)
    where
        H: FnOnce(&SdkResponse<J>) -> String,
        K: FnOnce(&SdkResponse<J>) -> Result<String, SdkError>,
    requires
        format == OutputFormat::Human ==> call_requires(human, (response,)),
        format == OutputFormat::Json ==> call_requires(json, (response,)),
    ensures
        format == OutputFormat::Human ==> (r matches Ok(s) && call_ensures(human, (response,), s)),
        format == OutputFormat::Json ==> call_ensures(json, (response,), r),
        format == OutputFormat::Sarif ==> (r matches Err(SdkError::UnsupportedFormat(f)) && f == OutputFormat::Sarif),
{
    match format {
        OutputFormat::Human => Ok(human(response)),
        OutputFormat::Json => json(response),
        OutputFormat::Sarif => Err(SdkError::UnsupportedFormat(format)),
    }
}

/// A response rendered in a format by the caller's renderer: `render_human` for human
/// output, `render_json` for JSON, and `UnsupportedFormat` for SARIF. What the renderer's
/// methods return is the renderer's own.
pub fn render_response_with<J, R: Renderer<J>>(renderer: &R, response: &SdkResponse<J>, format: OutputFormat) -> (r:
    Result<String, SdkError>)
    ensures
        format == OutputFormat::Human ==> r is Ok,
        format == OutputFormat::Sarif ==> (r matches Err(SdkError::UnsupportedFormat(f)) && f == OutputFormat::Sarif),
{
    render_with_format(
        response,
        format,
        |x: &SdkResponse<J>| renderer.render_human(x),
        |x: &SdkResponse<J>| renderer.render_json(x),
    )
}

/// The style sheet of exported pages.
pub const DEFAULT_STYLE: &'static str = "
body { font-family: sans-serif; margin: 2rem; color: #111; }
h1 { font-size: 1.4rem; margin-bottom: 1rem; }
pre { background: #f6f8fa; padding: 1rem; border-radius: 6px; }
";

/// The exported page: a UTF-8 HTML document titled `title`, with the default style, the
/// title as heading and `body` preformatted. Neither is escaped.
pub open spec fn spec_html_document(title: Seq<char>, body: Seq<char>) -> Seq<char> {
    "<!doctype html><html><head><meta charset=\"utf-8\"><title>"@ + title + "</title><style>"@ + DEFAULT_STYLE@
        + "</style></head><body><h1>"@ + title + "</h1><pre>"@ + body + "</pre></body></html>"@
}

/// The HTML page an export writes.
pub fn html_document(title: &str, body: &str) -> (r: String)
    ensures
        r@ == spec_html_document(title@, body@),
{
    let a = concat_str("<!doctype html><html><head><meta charset=\"utf-8\"><title>", title);
    let b = concat_str(a.as_str(), "</title><style>");
    let c = concat_str(b.as_str(), DEFAULT_STYLE);
    let d = concat_str(c.as_str(), "</style></head><body><h1>");
    let e = concat_str(d.as_str(), title);
    let f = concat_str(e.as_str(), "</h1><pre>");
    let g = concat_str(f.as_str(), body);
    concat_str(g.as_str(), "</pre></body></html>")
}

} // verus!

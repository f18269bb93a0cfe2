use asc_standard::sdk::attestation::{attest, ensure_non_production};
use asc_standard::sdk::canonicalization::{min_bytes_unsigned, validate_canonicalization, CanonicalValue};
use asc_standard::sdk::cli::{
    resolve_format, resolve_timeout, support_bundle_request, verify_request, SupportBundleArgs, VerifyArgs,
};
use asc_standard::sdk::client::{
    checked, result_from_output, result_value, runner_step, timeout_error, CommandResult, RunnerAction, SdkClient,
    SdkConfig,
};
use asc_standard::sdk::commands;
use asc_standard::sdk::constructors::{minimal_local, minimal_replay, minimal_signed};
use asc_standard::sdk::diagnostics::{
    is_healthy, run, DiagnosticFinding, DiagnosticProbes, DiagnosticReport, DiagnosticSeverity, RepoProbe,
    TascProbe, ToolProbe,
};
use asc_standard::sdk::mock_data::{generate_bundle, DeterministicRng, MockDataRequest, MockEvent, MockScenario};
use asc_standard::sdk::paths::{
    join_path_str, last_report_path, locate, resolve_repo_root, resolve_tasc_path, AncestorProbe,
};
use asc_standard::sdk::render::{html_document, render_human_response, render_response_with, render_with_format, Renderer};
use asc_standard::sdk::reports::{parse_json_bytes, parse_json_output, result_from_json, summarize, JsonField, JsonFields};
use asc_standard::sdk::snippets::{SnippetOperation, SnippetRegistry};
use asc_standard::sdk::templates::{
    bounded_metric, build_template, deterministic_hex, ArtifactFields, TemplateKind, TemplateRequest,
};
use asc_standard::sdk::test_helpers::{assert_verify_and_explain, seeded_bundle_bytes, verify_request_for};
use asc_standard::sdk::{
    exit_code_for, CommandOutput, DemoRequest, DoctorRequest, OutputFormat, SdkError, SdkResponse,
    SupportBundleRequest, VerifyResponse,
};

fn output(stdout: &str, stderr: &str) -> CommandOutput {
    CommandOutput { stdout: stdout.to_string(), stderr: stderr.to_string(), exit_code: Some(0) }
}

fn run_result(success: bool, stdout: &str) -> CommandResult {
    CommandResult { success, code: Some(if success { 0 } else { 3 }), stdout: stdout.to_string(), stderr: "e".to_string() }
}

fn fields(result: JsonField, status: JsonField, verdict: JsonField) -> JsonFields {
    JsonFields { result, status, verdict, findings: JsonField::Absent, failures: JsonField::Absent }
}

fn client() -> SdkClient {
    SdkClient::from_resolved(
        SdkConfig { repo_root: None, tasc_path: None, timeout_ms: Some(900) },
        "/repo".to_string(),
        "/repo/tasc".to_string(),
    )
}

#[test]
fn default_registry_has_every_snippet() {
    let registry = SnippetRegistry::default();
    assert_eq!(
        registry.snippet(SnippetOperation::Doctor, OutputFormat::Json).ok(),
        Some("tasc-sdk-cli doctor --operation verify --format json")
    );
    assert_eq!(
        registry.generate(SnippetOperation::Verify, OutputFormat::Sarif).ok(),
        Some("tasc-sdk-cli verify examples/minimal-local --format sarif".to_string())
    );
    assert_eq!(
        registry.snippet(SnippetOperation::SupportBundle, OutputFormat::Human).ok(),
        Some("tasc-sdk-cli support-bundle --archive")
    );
    for op in SnippetOperation::all() {
        for format in [OutputFormat::Human, OutputFormat::Json, OutputFormat::Sarif] {
            assert!(registry.snippet(op, format).is_ok());
        }
    }
    assert_eq!(SnippetOperation::CiPreflight.as_str(), "ci-preflight");
}

#[test]
fn snippet_after_insert_is_what_was_inserted() {
    let mut registry = SnippetRegistry::new();
    match registry.snippet(SnippetOperation::Demo, OutputFormat::Human) {
        Err(SdkError::NotImplemented(m)) => assert_eq!(m, "snippet not available"),
        _ => panic!("an empty registry has no snippet"),
    }
    registry.insert(SnippetOperation::Demo, OutputFormat::Human, "run demo".to_string());
    assert_eq!(registry.snippet(SnippetOperation::Demo, OutputFormat::Human).ok(), Some("run demo"));
    assert!(registry.snippet(SnippetOperation::Demo, OutputFormat::Json).is_err());
    registry.insert(SnippetOperation::Demo, OutputFormat::Human, "again".to_string());
    assert_eq!(registry.generate(SnippetOperation::Demo, OutputFormat::Human).ok(), Some("again".to_string()));
}

#[test]
fn snippet_registry_keeps_the_last_insert_of_each_key() {
    let mut registry = SnippetRegistry::new();
    registry.insert(SnippetOperation::Verify, OutputFormat::Json, "first".to_string());
    registry.insert(SnippetOperation::Doctor, OutputFormat::Json, "doctor".to_string());
    registry.insert(SnippetOperation::Verify, OutputFormat::Json, "second".to_string());
    registry.insert(SnippetOperation::Verify, OutputFormat::Sarif, "sarif".to_string());
    registry.insert(SnippetOperation::Verify, OutputFormat::Json, "third".to_string());
    assert_eq!(registry.snippet(SnippetOperation::Verify, OutputFormat::Json).ok(), Some("third"));
    assert_eq!(registry.snippet(SnippetOperation::Doctor, OutputFormat::Json).ok(), Some("doctor"));
    assert_eq!(registry.snippet(SnippetOperation::Verify, OutputFormat::Sarif).ok(), Some("sarif"));
    match registry.snippet(SnippetOperation::Verify, OutputFormat::Human) {
        Err(SdkError::NotImplemented(m)) => assert_eq!(m, "snippet not available"),
        _ => panic!("no insert was made for this key"),
    }
}

#[test]
fn template_identifiers_are_splitmix_hex() {
    assert_eq!(deterministic_hex(0), "e220a8397b1dcdaf");
    for seed in [1u64, 2, 3, u64::MAX] {
        let id = deterministic_hex(seed);
        assert_eq!(id.len(), 16);
        assert!(id.chars().all(|c| c.is_ascii_hexdigit() && !c.is_ascii_uppercase()));
    }
    assert_eq!(TemplateKind::EuReadinessCertificate.name(), "EU Readiness Certificate");
    assert_eq!(TemplateKind::SimplexReversionPolicy.slug(), "simplex-reversion-policy");
    assert_eq!(TemplateKind::EvidenceMapHelloWorld.tag(), 0xD4);
    assert_eq!(bounded_metric(42, 60, 98), 63);
    assert_eq!(bounded_metric(7, 10, 5), 11);
}

#[test]
fn template_content_is_determined_by_kind_and_seed() {
    let request = TemplateRequest {
        kind: TemplateKind::EuReadinessCertificate,
        seed: 42,
        trust_mode: None,
        profile_bundle: Some("b@2".to_string()),
        include_signature_stub: true,
    };
    let content = build_template(&request);
    assert_eq!(content.template_version, "1.0.0");
    assert_eq!(content.slug, "eu-readiness-certificate");
    assert_eq!(content.artifact_id, "325c64dbdc5bbde3");
    assert_eq!(content.trust_mode, "dev-local");
    assert_eq!(content.profile_bundle, "b@2");
    match &content.artifact {
        ArtifactFields::EuReadinessCertificate { certificate, jurisdiction, readiness_score } => {
            assert_eq!(certificate, "EU-READY-9691c38b30d2b83c");
            assert_eq!(jurisdiction, "EASA");
            assert_eq!(*readiness_score, 63);
        },
        _ => panic!("wrong fields"),
    }
    let stub = content.signature_stub.expect("stub");
    assert_eq!(stub.kid, "demo-35764711cd2e41ed");
    assert_eq!(stub.signature, "NON_PRODUCTION_SIGNATURE_STUB");

    let packet = build_template(&TemplateRequest {
        kind: TemplateKind::UnderwriterConfidencePacket,
        seed: 42,
        trust_mode: Some("t".to_string()),
        profile_bundle: None,
        include_signature_stub: false,
    });
    assert!(packet.signature_stub.is_none());
    assert_eq!(packet.profile_bundle, "dev-local@1.0.0");
    match &packet.artifact {
        ArtifactFields::UnderwriterConfidencePacket { risk_band, confidence, .. } => {
            assert_eq!(risk_band, "MEDIUM");
            assert_eq!(*confidence, 75);
        },
        _ => panic!("wrong fields"),
    }
}

#[test]
fn rng_follows_xorshift() {
    let mut rng = DeterministicRng::new(0);
    assert_eq!(rng.next_u64(), 15860402102123842989);
    let mut a = DeterministicRng::new(5);
    let mut b = DeterministicRng::new(5);
    assert_eq!(a.next_range_u32(1, 12), b.next_range_u32(1, 12));
    assert_eq!(a.next_bool(), b.next_bool());
}

#[test]
fn mock_bundle_needs_records() {
    let request = MockDataRequest { scenario: MockScenario::FlightLog, seed: 7, records: 0 };
    match generate_bundle(&request) {
        Err(SdkError::InvalidConfig(m)) => assert_eq!(m, "mock data request must contain at least one record"),
        _ => panic!("expected an invalid config"),
    }
}

#[test]
fn mock_flight_log_draws_in_field_order() {
    let request = MockDataRequest { scenario: MockScenario::FlightLog, seed: 7, records: 3 };
    let bundle = generate_bundle(&request).ok().expect("bundle");
    assert_eq!(bundle.events.len(), 3);
    assert_eq!(bundle.summary.records, 3);
    assert_eq!(bundle.summary.schema_version, "1.0.0");
    assert_eq!(MockScenario::FlightLog.slug(), "flight_log");
    match &bundle.events[0] {
        MockEvent::FlightLog { index, timestamp_ms, altitude_m, speed_mps, latitude_draw, longitude_draw, heartbeat_ok } => {
            assert_eq!(*index, 0);
            assert_eq!(*timestamp_ms, 1_700_000_000_000);
            assert_eq!(*altitude_m, 103);
            assert_eq!(*speed_mps, 19);
            assert_eq!(*latitude_draw, 17825895190910275674);
            assert_eq!(*longitude_draw, 17373140041105497338);
            assert!(!*heartbeat_ok);
        },
        _ => panic!("wrong event"),
    }
    match &bundle.events[2] {
        MockEvent::FlightLog { index, timestamp_ms, .. } => {
            assert_eq!(*index, 2);
            assert_eq!(*timestamp_ms, 1_700_000_002_000);
        },
        _ => panic!("wrong event"),
    }
    let again = generate_bundle(&request).ok().expect("bundle");
    match (&bundle.events[1], &again.events[1]) {
        (MockEvent::FlightLog { altitude_m: a, .. }, MockEvent::FlightLog { altitude_m: b, .. }) => assert_eq!(a, b),
        _ => panic!("wrong event"),
    }
}

#[test]
fn mock_maintenance_components_are_numbered() {
    let request = MockDataRequest { scenario: MockScenario::MaintenanceLog, seed: 1, records: 2 };
    let bundle = generate_bundle(&request).ok().expect("bundle");
    for event in &bundle.events {
        match event {
            MockEvent::MaintenanceLog { component, status, action, hours_since_service, .. } => {
                assert!(component.starts_with("component-"));
                let n: u32 = component["component-".len()..].parse().unwrap();
                assert!((1..=12).contains(&n));
                assert!(status == "PASS" || status == "WARN");
                assert!(action == "inspection" || action == "replacement");
                assert!((1..=500).contains(hours_since_service));
            },
            _ => panic!("wrong event"),
        }
    }
}

#[test]
fn paths_join_like_path_join() {
    assert_eq!(join_path_str("/repo", "tasc"), "/repo/tasc");
    assert_eq!(join_path_str("/repo/", "tasc"), "/repo/tasc");
    assert_eq!(join_path_str("", "tasc"), "tasc");
}

#[test]
fn repo_root_is_the_nearest_qualifying_ancestor() {
    let ancestors = vec![
        AncestorProbe { path: "/a/b/c".to_string(), is_root: false, nested_is_root: false },
        AncestorProbe { path: "/a/b".to_string(), is_root: false, nested_is_root: true },
        AncestorProbe { path: "/a".to_string(), is_root: true, nested_is_root: false },
    ];
    assert_eq!(resolve_repo_root("/a/b/c", &ancestors).ok(), Some("/a/b/TASC/asc-standard".to_string()));
    match resolve_repo_root("/x", &vec![]) {
        Err(SdkError::RepoNotFound(p)) => assert_eq!(p, "/x"),
        _ => panic!("expected repo not found"),
    }
}

#[test]
fn tasc_path_prefers_the_override() {
    assert_eq!(resolve_tasc_path("/repo", &None, true).ok(), Some("/repo/tasc".to_string()));
    match resolve_tasc_path("/repo", &Some("/bin/tasc".to_string()), false) {
        Err(SdkError::TascNotFound(p)) => assert_eq!(p, "/bin/tasc"),
        _ => panic!("expected tasc not found"),
    }
}

#[test]
fn last_artifacts_are_located_under_the_state_directory() {
    let found = locate("/repo", true, false);
    assert_eq!(found.report_path, Some("/repo/.tasc/last-report.json".to_string()));
    assert_eq!(found.explain_path, None);
    assert_eq!(last_report_path(&found).ok(), Some("/repo/.tasc/last-report.json".to_string()));
    match last_report_path(&locate("/repo", false, false)) {
        Err(SdkError::ParseError(m)) => assert_eq!(m, "last report not found"),
        _ => panic!("expected a parse error"),
    }
}

#[test]
fn summaries_read_the_first_present_field() {
    let report = JsonFields {
        result: JsonField::Absent,
        status: JsonField::Text("WARN".to_string()),
        verdict: JsonField::Number,
        findings: JsonField::Object,
        failures: JsonField::Array(4),
    };
    let summary = summarize(&report);
    assert_eq!(summary.result, "WARN");
    assert_eq!(summary.verdict, "UNKNOWN");
    assert_eq!(summary.findings_count, 4);
    let empty = summarize(&fields(JsonField::Absent, JsonField::Absent, JsonField::Absent));
    assert_eq!((empty.result.as_str(), empty.verdict.as_str(), empty.findings_count), ("UNKNOWN", "UNKNOWN", 0));
}

#[test]
fn outcome_comes_from_json_then_text() {
    let j = fields(JsonField::Bool, JsonField::Text("PASS".to_string()), JsonField::Absent);
    assert_eq!(result_from_json(Some(&j)), None);
    let j = fields(JsonField::Absent, JsonField::Absent, JsonField::Text("Clamp".to_string()));
    assert_eq!(result_from_json(Some(&j)), Some("Clamp".to_string()));
    assert_eq!(result_value(Some(&j), &output("FAIL", "")), "Clamp");
    assert_eq!(result_from_output(&output("all checks passed", "")), Some("PASS".to_string()));
    assert_eq!(result_from_output(&output("Warning: x", "passed")), Some("WARN".to_string()));
    assert_eq!(result_from_output(&output("ok", "failed")), Some("FAIL".to_string()));
    assert_eq!(result_value(None, &output("ok", "")), "UNKNOWN");
}

#[test]
fn invocations_carry_the_client_and_request_settings() {
    let c = client();
    let doctor = c.doctor_invocation(&DoctorRequest::default()).ok().expect("doctor");
    assert_eq!(doctor.program, "/repo/tasc");
    assert_eq!(doctor.current_dir, "/repo");
    assert_eq!(doctor.args, vec!["doctor".to_string(), "--format".to_string(), "human".to_string()]);
    assert_eq!(doctor.timeout_ms, Some(900));
    assert!(doctor.allow_failure);
    let mut sarif = DoctorRequest::default();
    sarif.format = OutputFormat::Sarif;
    assert!(matches!(c.doctor_invocation(&sarif), Err(SdkError::UnsupportedFormat(OutputFormat::Sarif))));
    let bundle = c
        .support_bundle_invocation(&SupportBundleRequest {
            target_path: None,
            archive: true,
            output: Some("b.tgz".to_string()),
            redact: false,
            timeout_ms: Some(5),
        })
        .ok()
        .expect("bundle");
    assert_eq!(bundle.args, vec!["support-bundle", ".", "--archive", "--output", "b.tgz"]);
    assert_eq!(bundle.timeout_ms, Some(5));
    assert!(!bundle.allow_failure);
    assert_eq!(c.resolve_timeout(None), Some(900));
}

#[test]
fn support_bundle_path_is_the_trimmed_output() {
    let c = client();
    let response = c.support_bundle(run_result(true, "  /tmp/bundle.tgz\n")).ok().expect("response");
    assert_eq!(response.bundle_path, Some("/tmp/bundle.tgz".to_string()));
    let response = c.support_bundle(run_result(true, " \n")).ok().expect("response");
    assert_eq!(response.bundle_path, None);
    match c.support_bundle(run_result(false, "out")) {
        Err(e @ SdkError::CommandFailed { .. }) => {
            assert_eq!(exit_code_for(&e), 3);
            assert_eq!(e.message(), "command failed (code=Some(3))");
        },
        _ => panic!("expected a failed command"),
    }
    assert!(checked(run_result(true, "x")).is_ok());
}

#[test]
fn verify_response_points_at_the_last_report() {
    let c = client();
    let r: VerifyResponse<u8> = c.verify_response(&run_result(false, "FAIL"), Some(1), None, true);
    assert_eq!(r.status, "FAIL");
    assert_eq!(r.verdict, "FAIL");
    assert_eq!(r.report_path, Some("/repo/.tasc/last-report.json".to_string()));
    assert_eq!(r.json, Some(1));
    let next = assert_verify_and_explain(r).ok().expect("explain request");
    assert_eq!(next.1.report_path, Some("/repo/.tasc/last-report.json".to_string()));
    assert_eq!(next.1.format, OutputFormat::Json);
    let r: VerifyResponse<u8> = c.verify_response(&run_result(true, "PASS"), None, None, false);
    match assert_verify_and_explain(r) {
        Err(SdkError::ParseError(m)) => assert_eq!(m, "verify response missing report path"),
        _ => panic!("expected a parse error"),
    }
}

#[test]
fn runner_polls_under_a_time_limit() {
    assert!(matches!(runner_step(false, 10, None), RunnerAction::Collect));
    assert!(matches!(runner_step(true, 10_000, Some(100)), RunnerAction::Collect));
    assert!(matches!(runner_step(false, 100, Some(100)), RunnerAction::KillForTimeout { after_ms: 100 }));
    assert!(matches!(runner_step(false, 99, Some(100)), RunnerAction::Sleep { ms: 25 }));
    let e = timeout_error(100, "o".to_string(), "e".to_string());
    assert_eq!(e.message(), "command timed out after 100ms");
    assert_eq!(exit_code_for(&e), 3);
}

fn finding_codes(report: &DiagnosticReport) -> Vec<String> {
    report.findings.iter().map(|f| f.code.clone()).collect()
}

#[test]
fn diagnostics_report_missing_pieces() {
    let probes = DiagnosticProbes {
        start_path: "/work".to_string(),
        repo: Some(RepoProbe {
            root: "/work".to_string(),
            tasc: TascProbe::Found { path: "/work/tasc".to_string(), executable: false },
            local_present: true,
            signed_present: false,
            replay_present: true,
        }),
        rustc: ToolProbe::Succeeded { stdout: "rustc 1.80.0\n".to_string() },
        cargo: ToolProbe::Unavailable { error: "not found".to_string() },
    };
    let report = run(&probes);
    assert_eq!(report.result, "FAIL");
    assert_eq!(finding_codes(&report), vec!["TASC_NOT_EXECUTABLE", "MISSING_EXAMPLE_MINIMAL_SIGNED", "CARGO_NOT_AVAILABLE"]);
    assert_eq!(report.findings[1].message, "required example is missing: /work/examples/minimal-signed");
    assert_eq!(report.findings[2].message, "failed to execute cargo: not found");
    assert_eq!(report.findings[2].remediation, "ensure `cargo` is installed and available on PATH");
    let context: Vec<(String, String)> = report.context.clone();
    let keys: Vec<&str> = context.iter().map(|(k, _)| k.as_str()).collect();
    assert_eq!(keys, vec!["repoRoot", "rustcVersion", "startPath", "tascPath"]);
    assert_eq!(context[0], ("repoRoot".to_string(), "/work".to_string()));
    assert_eq!(context[1], ("rustcVersion".to_string(), "rustc 1.80.0".to_string()));
    assert_eq!(context[2], ("startPath".to_string(), "/work".to_string()));
    assert_eq!(context[3], ("tascPath".to_string(), "/work/tasc".to_string()));
    assert!(!is_healthy(&report));
}

#[test]
fn diagnostics_pass_when_nothing_is_found() {
    let probes = DiagnosticProbes {
        start_path: "/work".to_string(),
        repo: Some(RepoProbe {
            root: "/work".to_string(),
            tasc: TascProbe::Found { path: "/work/tasc".to_string(), executable: true },
            local_present: true,
            signed_present: true,
            replay_present: true,
        }),
        rustc: ToolProbe::Succeeded { stdout: "rustc".to_string() },
        cargo: ToolProbe::Succeeded { stdout: "cargo".to_string() },
    };
    let report = run(&probes);
    assert_eq!(report.result, "PASS");
    assert!(report.findings.is_empty());
    assert!(is_healthy(&report));
    let keys: Vec<&str> = report.context.iter().map(|(k, _)| k.as_str()).collect();
    assert_eq!(keys, vec!["cargoVersion", "repoRoot", "rustcVersion", "startPath", "tascPath"]);
    let lost = run(&DiagnosticProbes {
        start_path: "/else".to_string(),
        repo: None,
        rustc: ToolProbe::Failed { stderr: " broken ".to_string() },
        cargo: ToolProbe::Succeeded { stdout: "cargo".to_string() },
    });
    assert_eq!(finding_codes(&lost), vec!["REPO_ROOT_NOT_FOUND", "RUSTC_NOT_AVAILABLE"]);
    assert_eq!(lost.findings[1].message, "rustc reported non-zero status: broken");
    let warned = DiagnosticReport {
        result: "PASS".to_string(),
        findings: vec![DiagnosticFinding {
            code: "X".to_string(),
            severity: DiagnosticSeverity::Error,
            message: "m".to_string(),
            remediation: "r".to_string(),
        }],
        context: Vec::new(),
    };
    assert!(!is_healthy(&warned));
    let c = client();
    assert_eq!(c.diagnostics_start(), "/repo");
    assert_eq!(c.diagnostics(None, ToolProbe::Succeeded { stdout: "r".to_string() }, ToolProbe::Succeeded { stdout: "c".to_string() }).findings[0].message, "could not resolve repo root from /repo");
}

struct CountingRenderer {
    calls: std::cell::Cell<u32>,
}

impl Renderer<u8> for CountingRenderer {
    fn render_human(&self, response: &SdkResponse<u8>) -> String {
        self.calls.set(self.calls.get() + 1);
        render_human_response(response)
    }

    fn render_json(&self, _response: &SdkResponse<u8>) -> Result<String, SdkError> {
        self.calls.set(self.calls.get() + 1);
        Ok("{}".to_string())
    }
}

#[test]
fn human_rendering_summarises_each_response() {
    let verify: SdkResponse<u8> = SdkResponse::Verify(VerifyResponse {
        status: "PASS".to_string(),
        verdict: "Allow".to_string(),
        report_path: None,
        output: None,
        json: None,
    });
    assert_eq!(render_human_response(&verify), "verify: PASS (verdict=Allow, report=none)");
    let renderer = CountingRenderer { calls: std::cell::Cell::new(0) };
    assert_eq!(render_response_with(&renderer, &verify, OutputFormat::Json).ok(), Some("{}".to_string()));
    assert_eq!(renderer.calls.get(), 1);
    assert_eq!(
        render_response_with(&renderer, &verify, OutputFormat::Human).ok(),
        Some("verify: PASS (verdict=Allow, report=none)".to_string())
    );
    assert_eq!(renderer.calls.get(), 2);
    assert!(matches!(
        render_response_with(&renderer, &verify, OutputFormat::Sarif),
        Err(SdkError::UnsupportedFormat(OutputFormat::Sarif))
    ));
    assert_eq!(renderer.calls.get(), 2);
    let shown = render_with_format(&verify, OutputFormat::Human, |_: &SdkResponse<u8>| "h".to_string(), |_: &SdkResponse<u8>| Ok("j".to_string()));
    assert_eq!(shown.ok(), Some("h".to_string()));
    let shown = render_with_format(&verify, OutputFormat::Json, |_: &SdkResponse<u8>| "h".to_string(), |_: &SdkResponse<u8>| Err(SdkError::NotImplemented("j")));
    assert!(matches!(shown, Err(SdkError::NotImplemented("j"))));
    let html = html_document("T", "B");
    assert!(html.starts_with("<!doctype html><html><head><meta charset=\"utf-8\"><title>T</title><style>"));
    assert!(html.ends_with("</style></head><body><h1>T</h1><pre>B</pre></body></html>"));
}

#[test]
fn seeded_bundle_is_the_fixed_document() {
    assert_eq!(
        seeded_bundle_bytes(),
        br#"{"bundle":"seeded","version":1,"entries":[{"id":"alpha","value":true}]}"#.to_vec()
    );
    let request = verify_request_for("/tmp/x.json");
    assert_eq!(request.target_path, "/tmp/x.json");
    assert_eq!(request.format, OutputFormat::Json);
}

#[test]
fn command_line_requests_resolve_formats() {
    assert_eq!(resolve_format(None).ok(), Some(OutputFormat::Human));
    assert_eq!(resolve_format(Some(" Json ".to_string())).ok(), Some(OutputFormat::Json));
    match resolve_format(Some("xml".to_string())) {
        Err(SdkError::ParseError(m)) => assert_eq!(m, "unsupported output format: xml"),
        _ => panic!("expected a parse error"),
    }
    assert_eq!(resolve_timeout(None), None);
    assert_eq!(resolve_timeout(Some(5)), Some(5));
    let request = verify_request(VerifyArgs {
        path: "p".to_string(),
        profile_bundle: None,
        trust_mode: Some("dev-local".to_string()),
        format: Some("sarif".to_string()),
        timeout_ms: Some(7),
    })
    .ok()
    .expect("request");
    assert_eq!(request.format, OutputFormat::Sarif);
    assert_eq!(request.trust_mode.as_deref(), Some("dev-local"));
    assert!(request.profile.is_none());
    let (bundle, format) = support_bundle_request(SupportBundleArgs {
        path: None,
        output: None,
        archive: true,
        redact: true,
        timeout_ms: None,
    });
    assert!(bundle.archive && bundle.redact);
    assert_eq!(format, OutputFormat::Human);
}

#[test]
fn errors_map_to_exit_codes_and_messages() {
    assert_eq!(exit_code_for(&SdkError::InvalidConfig("x".to_string())), 2);
    assert_eq!(exit_code_for(&SdkError::NotImplemented("y")), 1);
    let io = SdkError::Io(std::io::Error::new(std::io::ErrorKind::Other, "disk"));
    assert_eq!(exit_code_for(&io), 4);
    assert!(io.message().starts_with("io error: "));
    assert_eq!(SdkError::UnsupportedFormat(OutputFormat::Sarif).message(), "unsupported output format: Sarif");
    assert_eq!(SdkError::CommandFailed { code: None, stdout: String::new(), stderr: String::new() }.message(), "command failed (code=None)");
    assert_eq!(SdkError::TascNotFound("/t".to_string()).message(), "tasc binary not found at /t");
}

#[test]
fn attestation_refuses_production() {
    match ensure_non_production(Some("prod-hsm")) {
        Err(SdkError::InvalidConfig(m)) => assert_eq!(m, "sandbox attestation is not allowed with trust_mode=prod-hsm"),
        _ => panic!("expected an invalid config"),
    }
    let a = attest(Some("dev-local")).ok().expect("attested");
    assert_eq!(a.marker, "NON_PRODUCTION");
    assert_eq!(a.trust_mode.as_deref(), Some("dev-local"));
    assert!(attest(None).is_ok());
}

#[test]
fn canonical_values_use_the_fewest_bytes() {
    assert_eq!(min_bytes_unsigned(255), 1);
    assert_eq!(min_bytes_unsigned(256), 2);
    assert_eq!(min_bytes_unsigned(70_000), 4);
    assert_eq!(min_bytes_unsigned(u64::MAX), 8);
    assert!(validate_canonicalization(&CanonicalValue::Unsigned { value: 10, byte_len: 1 }).is_ok());
    match validate_canonicalization(&CanonicalValue::Unsigned { value: 10, byte_len: 2 }) {
        Err(SdkError::Canonicalization(m)) => assert_eq!(m, "unsigned integer 10 uses 2 bytes (expected 1)"),
        _ => panic!("expected a canonicalization error"),
    }
    match validate_canonicalization(&CanonicalValue::Negative { value: -300, byte_len: 1 }) {
        Err(SdkError::Canonicalization(m)) => assert_eq!(m, "negative integer -300 uses 1 bytes (expected 2)"),
        _ => panic!("expected a canonicalization error"),
    }
    let map = CanonicalValue::Mapping {
        entries: vec![("b".to_string(), CanonicalValue::Null), ("a".to_string(), CanonicalValue::Null)],
        indefinite: false,
    };
    match validate_canonicalization(&map) {
        Err(SdkError::Canonicalization(m)) => assert_eq!(m, "map keys must be strictly lexicographic"),
        _ => panic!("expected a canonicalization error"),
    }
    let ordered = CanonicalValue::Mapping {
        entries: vec![
            ("a".to_string(), CanonicalValue::Null),
            ("b".to_string(), CanonicalValue::Unsigned { value: 300, byte_len: 4 }),
        ],
        indefinite: false,
    };
    match validate_canonicalization(&ordered) {
        Err(SdkError::Canonicalization(m)) => assert_eq!(m, "unsigned integer 300 uses 4 bytes (expected 2)"),
        _ => panic!("expected a canonicalization error"),
    }
    let array = CanonicalValue::Array { items: vec![CanonicalValue::Text { data: "x".to_string(), indefinite: true }], indefinite: false };
    match validate_canonicalization(&array) {
        Err(SdkError::Canonicalization(m)) => assert_eq!(m, "text uses indefinite length encoding"),
        _ => panic!("expected a canonicalization error"),
    }
}

#[test]
fn commands_build_the_tasc_arguments() {
    let (verify, explain) = commands::demo::build_demo_requests(&DemoRequest::default());
    assert_eq!(verify.target_path, "examples/minimal-local");
    assert!(explain.report_path.is_none());
    let args = commands::verify::build_args(&minimal_local()).ok().expect("args");
    assert_eq!(
        args,
        vec!["verify", "examples/minimal-local", "--profile-bundle", "dev-local@1.0.0", "--trust-mode", "dev-local", "--format", "json"]
    );
    assert_eq!(minimal_signed().profile.as_deref(), Some("fixed-wing"));
    assert_eq!(minimal_replay().target_path, "examples/minimal-replay");
}

#[test]
fn run_output_is_parsed_as_json_after_trimming() {
    assert!(parse_json_output("  \n").is_none());
    assert!(parse_json_output("PASS: all good").is_none());
    let (document, fields) = parse_json_output(" {\"result\":\"PASS\",\"status\":3,\"findings\":[1,2]}\n").expect("json");
    assert_eq!(document["result"], "PASS");
    assert!(matches!(fields.result, JsonField::Text(ref t) if t == "PASS"));
    assert!(matches!(fields.status, JsonField::Number));
    assert!(matches!(fields.verdict, JsonField::Absent));
    assert!(matches!(fields.findings, JsonField::Array(2)));
    assert_eq!(result_from_json(Some(&fields)), Some("PASS".to_string()));
    let (_, kinds) = parse_json_output("{\"result\":null,\"status\":true,\"verdict\":{},\"failures\":[]}").expect("json");
    assert!(matches!(kinds.result, JsonField::Null));
    assert!(matches!(kinds.status, JsonField::Bool));
    assert!(matches!(kinds.verdict, JsonField::Object));
    assert!(matches!(kinds.failures, JsonField::Array(0)));
    assert_eq!(summarize(&kinds).findings_count, 0);
    let (_, not_object) = parse_json_output("[1]").expect("json");
    assert!(matches!(not_object.result, JsonField::Absent));
}

#[test]
fn report_files_are_parsed_as_json() {
    let document = parse_json_bytes(b"{\"verdict\":\"Allow\"}").ok().expect("json");
    assert_eq!(document["verdict"], "Allow");
    assert!(matches!(parse_json_bytes(b"{"), Err(SdkError::ParseError(_))));
}

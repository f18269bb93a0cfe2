use asc_standard::kernel::adapter::{normalize_to_kernel_intent, AdapterEnvelope, AdapterError};
use asc_standard::kernel::checks::{evaluate_checks, DiscreteLimits, StateAssessment};
use asc_standard::kernel::conformance::{
    assess_replay, check_replay_inputs, drift_seed, final_verdict, lcg_step, noise_bits, overall_result,
    profile_vector_name, sequence_tick, validator_name, ConformanceError, DriftPolicy, ReplayFixture, SimResult,
};
use asc_standard::kernel::engine::command_for_verdict;
use asc_standard::kernel::interlock::InterlockGate;
use asc_standard::kernel::logging::{EventLog, OutputDigestFields};
use asc_standard::kernel::mission::{gated_intent, mission_final_verdict, render_signed_log, saturating_mul, LoggedPayload};
use asc_standard::kernel::mission_args::{artifact_names, check_mission_profile, incident_system_id, parse_mission_args, MissionArgsError};
use asc_standard::kernel::replay_args::{parse_args_from, profile_list, ArgsError};
use asc_standard::kernel::runtime::Runtime;
use asc_standard::kernel::supervisor::{incident_narrative, incident_severity, mission_evidence_refs};
use asc_standard::kernel::trace_replay::{assess_trace, check_trace_profile, parse_trace_args, TickOutcome, TraceArgsError, TraceTick};
use asc_standard::kernel::verdict::{reasons_debug_string, ReasonCode, Verdict};

fn strings(items: &[&str]) -> Vec<String> {
    items.iter().map(|s| s.to_string()).collect()
}

fn signed_noise(seed: u64, tick_idx: u64, channel: u64, amplitude: f64) -> f64 {
    let unit = (noise_bits(seed, tick_idx, channel) as f64) / ((1u64 << 53) as f64);
    (unit - 0.5) * 2.0 * amplitude
}

fn default_limits() -> DiscreteLimits {
    DiscreteLimits { frame: "NED".to_string(), max_input_age_ms: 200, max_tick_interval_ms: 100, deadline_ms: 50 }
}

fn nominal(frame: &str) -> StateAssessment {
    StateAssessment {
        state_finite: true,
        frame: frame.to_string(),
        over_speed: false,
        outside_position_bounds: false,
        rate_limit_exceeded: false,
        below_min_soc: false,
        input_age_ms: 0,
        invariant_breached: false,
    }
}

fn sample_fields(command_text: String) -> OutputDigestFields {
    OutputDigestFields {
        verdict: Verdict::Clamp,
        reasons: vec![ReasonCode::FlowConstraintViolation],
        command_text,
        shutdown: false,
        contract_fingerprint: "fp-123".to_string(),
    }
}

fn command_text(values: [f64; 4]) -> String {
    format!("{:.17}|{:.17}|{:.17}|{:.17}", values[0], values[1], values[2], values[3])
}

#[test]
fn profile_vector_mapping_covers_all_supported_profiles() {
    assert_eq!(profile_vector_name("uas-small").ok().expect("uas-small mapping"), "kernel-smoke.json");
    assert_eq!(profile_vector_name("fixed-wing").ok().expect("fixed-wing mapping"), "kernel-smoke-fixed-wing.json");
    assert_eq!(profile_vector_name("hybrid-vtol").ok().expect("hybrid-vtol mapping"), "kernel-smoke-hybrid-vtol.json");
    assert!(profile_vector_name("unsupported-profile").is_err());
}

#[test]
fn unsupported_profile_names_the_profile() {
    match profile_vector_name("quadcopter") {
        Err(ConformanceError::UnsupportedProfile(p)) => assert_eq!(p, "quadcopter"),
        _ => panic!("expected an unsupported profile"),
    }
}

#[test]
fn precedence_is_monotonic_with_safety_severity() {
    assert!(Verdict::Allow.precedence() < Verdict::Clamp.precedence());
    assert!(Verdict::Clamp.precedence() < Verdict::Hold.precedence());
    assert!(Verdict::Hold.precedence() < Verdict::Override.precedence());
    assert!(Verdict::Override.precedence() < Verdict::Shutdown.precedence());
}

#[test]
fn signed_noise_is_deterministic_for_same_inputs() {
    let left = signed_noise(42, 7, 3, 0.15);
    let right = signed_noise(42, 7, 3, 0.15);
    assert_eq!(left, right);
}

#[test]
fn signed_noise_varies_for_different_inputs() {
    let baseline = signed_noise(42, 7, 3, 0.15);
    let different_seed = signed_noise(43, 7, 3, 0.15);
    assert_ne!(baseline, different_seed);
}

#[test]
fn noise_bits_are_the_top_bits_of_the_mixed_state() {
    assert_eq!(noise_bits(42, 7, 3), 219549833615830);
    assert_eq!(noise_bits(43, 7, 3), 6119260697806630);
}

#[test]
fn lcg_step_uses_the_mmix_constants() {
    assert_eq!(lcg_step(0), 1442695040888963407);
    assert_eq!(lcg_step(1), 7806831264735756412);
}

#[test]
fn parse_args_from_applies_overrides() {
    let args = strings(&["--repo-root", "/tmp/tasc", "--profiles", "fixed-wing,hybrid-vtol", "--output", "out/report.json", "--update-fixtures"]);
    let parsed = parse_args_from(&args).ok().expect("parse args");
    assert_eq!(parsed.repo_root, "/tmp/tasc");
    assert_eq!(parsed.profiles, vec!["fixed-wing".to_string(), "hybrid-vtol".to_string()]);
    assert_eq!(parsed.output, "out/report.json");
    assert!(parsed.update_fixtures);
}

#[test]
fn parse_args_from_rejects_unknown_flags() {
    let args = strings(&["--unknown"]);
    assert!(parse_args_from(&args).is_err());
}

#[test]
fn parse_args_reports_missing_values_and_help() {
    match parse_args_from(&strings(&["--profiles"])) {
        Err(e @ ArgsError::MissingValue(_)) => assert_eq!(e.message(), "missing value for --profiles"),
        _ => panic!("expected a missing value"),
    }
    assert!(matches!(parse_args_from(&strings(&["-h"])), Err(ArgsError::HelpRequested)));
    let defaults = parse_args_from(&Vec::new()).ok().expect("defaults");
    assert_eq!(defaults.profiles, strings(&["uas-small", "fixed-wing", "hybrid-vtol"]));
    assert_eq!(defaults.vectors_dir, "conformance/vectors");
    assert!(!defaults.update_fixtures);
}

#[test]
fn profile_list_trims_and_drops_empty_items() {
    assert_eq!(profile_list(" a , ,b,"), strings(&["a", "b"]));
    assert_eq!(profile_list(""), Vec::<String>::new());
}

#[test]
fn frame_mismatch_uses_dynamic_limits() {
    let input = nominal("ENU");
    let outcomes = evaluate_checks(&input, None, &default_limits());
    assert!(outcomes.iter().any(|outcome| outcome.reason == ReasonCode::StateInvalidFrame));
    assert!(outcomes.iter().any(|outcome| outcome.verdict == Verdict::Shutdown));
}

#[test]
fn speed_limit_uses_supplied_thresholds() {
    let mut input = nominal("NED");
    // Velocity 12.0 against a maximum speed of 5.0.
    input.over_speed = 12.0 > 5.0;
    let outcomes = evaluate_checks(&input, None, &default_limits());
    assert!(outcomes.iter().any(|outcome| outcome.reason == ReasonCode::StateOutOfBounds));
    assert!(outcomes.iter().any(|outcome| outcome.verdict == Verdict::Clamp));
}

#[test]
fn nominal_input_fires_no_check_and_late_ticks_fire_temporal_checks() {
    assert!(evaluate_checks(&nominal("NED"), Some(20), &default_limits()).is_empty());
    let late = evaluate_checks(&nominal("NED"), Some(150), &default_limits());
    let reasons: Vec<ReasonCode> = late.iter().map(|o| o.reason).collect();
    assert_eq!(reasons, vec![ReasonCode::TemporalGuaranteeViolation, ReasonCode::DeadlineMiss]);
    assert!(late.iter().all(|o| o.verdict == Verdict::Override));
}

#[test]
fn append_is_deterministic_for_identical_payloads() {
    let mut left: EventLog<u8> = EventLog::new();
    let mut right: EventLog<u8> = EventLog::new();
    let fields = sample_fields(command_text([1.25, 0.0, 0.0, 0.0]));
    left.append(1, 0, &fields);
    right.append(1, 0, &fields);
    assert_eq!(left.tip_hash, right.tip_hash);
    assert_eq!(left.records.len(), 1);
    assert_eq!(right.records.len(), 1);
}

#[test]
fn append_handles_non_finite_command_values_without_panicking() {
    let mut log: EventLog<u8> = EventLog::new();
    let fields = sample_fields(command_text([f64::NAN, 0.0, 0.0, 0.0]));
    log.append(1, 0, &fields);
    assert_eq!(log.records.len(), 1);
    assert!(!log.tip_hash.is_empty());
}

#[test]
fn append_hashes_the_event_material() {
    let mut log: EventLog<u8> = EventLog::new();
    let fields = sample_fields(command_text([1.25, 0.0, 0.0, 0.0]));
    log.append(1, 0, &fields);
    assert_eq!(log.tip_hash, "a731125f8a0d715cc9f6a962b9b08be9b5cc9dd6fe0bb0fd5b95c320d462d8d4");
    assert_eq!(log.records[0].prev_hash, "");
    log.append(2, 1, &fields);
    assert_eq!(log.records[1].prev_hash, log.records[0].hash);
    assert_eq!(log.tip_hash(), log.records[1].hash);
}

#[test]
fn reasons_render_as_a_debug_list() {
    assert_eq!(reasons_debug_string(&vec![]), "[]");
    assert_eq!(
        reasons_debug_string(&vec![ReasonCode::InputStale, ReasonCode::DeadlineMiss]),
        "[InputStale, DeadlineMiss]"
    );
}

#[test]
fn normalize_enforces_authority() {
    let payload = AdapterEnvelope {
        profile: "uas-small".to_string(),
        mission_id: "mission-1".to_string(),
        mode_request: "AUTO".to_string(),
        command_vector: vec![0.1, 0.2, 0.3],
        authority_source: "pilot_override".to_string(),
    };
    let err = normalize_to_kernel_intent(&payload, "2026-02-11T00:00:00Z".to_string())
        .err()
        .expect("must reject non-kernel authority");
    assert!(err.message().contains("authority_source must be safety_kernel"));
}

#[test]
fn normalize_rejects_empty_commands_and_stamps_accepted_ones() {
    let mut payload = AdapterEnvelope {
        profile: "uas-small".to_string(),
        mission_id: "mission-1".to_string(),
        mode_request: "AUTO".to_string(),
        command_vector: Vec::<f64>::new(),
        authority_source: "safety_kernel".to_string(),
    };
    assert!(matches!(normalize_to_kernel_intent(&payload, "t".to_string()), Err(AdapterError::EmptyCommandVector)));
    payload.command_vector = vec![0.25, 0.0];
    let intent = normalize_to_kernel_intent(&payload, "2026-02-11T00:00:00Z".to_string()).ok().expect("accepted");
    assert_eq!(intent.contract_version, "1.0.0");
    assert_eq!(intent.timestamp_utc, "2026-02-11T00:00:00Z");
    assert_eq!(intent.command_vector, vec![0.25, 0.0]);
}

#[test]
fn interlock_latches_on_authority_violation() {
    let minimum_hz = 10.0;
    let heartbeat_hz = 12.0;
    let mut gate = InterlockGate::new();
    let first = gate.evaluate("pilot_override", heartbeat_hz < minimum_hz, true, true);
    assert!(!first.allowed);
    assert!(first.latched);
    let second = gate.evaluate("safety_kernel", heartbeat_hz < minimum_hz, true, true);
    assert!(!second.allowed);
    assert_eq!(second.reason, "latched_shutdown");
}

#[test]
fn interlock_reset_restores_authority() {
    let mut gate = InterlockGate::new();
    let denied = gate.evaluate("safety_kernel", true, true, true);
    assert_eq!(denied.reason, "heartbeat_below_threshold");
    gate.reset_latch();
    let granted = gate.evaluate("safety_kernel", false, true, true);
    assert!(granted.allowed);
    assert_eq!(granted.reason, "authorized");
    let outside = gate.evaluate("safety_kernel", false, false, true);
    assert_eq!(outside.reason, "outside_safety_envelope");
    assert!(!outside.latched);
}

fn fixture(ticks: u64, step: u64) -> ReplayFixture {
    ReplayFixture {
        fixture_id: "fx-1".to_string(),
        description: "d".to_string(),
        profile: "uas-small".to_string(),
        seed: 7,
        ticks,
        time_step_ms: step,
        expected_final_verdict: "Allow".to_string(),
        expected_tip_hash: "tip-a".to_string(),
        drift: DriftPolicy::default_policy(),
    }
}

fn sim(verdict: &str, tip: &str) -> SimResult {
    SimResult { final_verdict: verdict.to_string(), tip_hash: tip.to_string() }
}

#[test]
fn replay_inputs_are_checked_in_order() {
    assert!(matches!(check_replay_inputs("uas-small", "fixed-wing", &fixture(10, 20)), Err(ConformanceError::VectorProfileMismatch { .. })));
    assert!(matches!(check_replay_inputs("uas-small", "uas-small", &fixture(0, 20)), Err(ConformanceError::ZeroTicks(_))));
    assert!(matches!(check_replay_inputs("uas-small", "uas-small", &fixture(10, 0)), Err(ConformanceError::ZeroTimeStep(_))));
    assert!(check_replay_inputs("uas-small", "uas-small", &fixture(10, 20)).is_ok());
    assert_eq!(drift_seed(&fixture(10, 20)), 8);
}

#[test]
fn reproducible_replay_passes_and_drifting_one_fails() {
    let (report, updated) = assess_replay("uas-small", fixture(10, 20), sim("Allow", "tip-a"), sim("Allow", "tip-a"), sim("Allow", "tip-b"), false);
    assert_eq!(report.result, "PASS");
    assert!(report.failures.is_empty());
    assert!(updated.is_none());

    let (report, _) = assess_replay("uas-small", fixture(10, 20), sim("Allow", "tip-a"), sim("Allow", "tip-a"), sim("Allow", "tip-a"), false);
    assert_eq!(report.result, "FAIL");
    assert_eq!(report.failures, vec!["drift seed did not change tip hash".to_string()]);

    let (report, updated) = assess_replay("uas-small", fixture(10, 20), sim("Hold", "tip-z"), sim("Hold", "tip-z"), sim("Hold", "tip-y"), true);
    assert_eq!(report.result, "PASS");
    let updated = updated.expect("updated fixture");
    assert_eq!(updated.expected_final_verdict, "Hold");
    assert_eq!(updated.expected_tip_hash, "tip-z");
    assert_eq!(overall_result(&vec![report]), "PASS");
    assert_eq!(validator_name(), "asc-conformance-kernel/replay-drift-validator@0.1.0");
}

#[test]
fn sequence_ticks_grow_the_input_age_cyclically() {
    let t = sequence_tick(4, 20, 5);
    assert_eq!((t.seq, t.ts_ms, t.input_age_ms), (5, 80, 6));
    let t = sequence_tick(5, u64::MAX, u64::MAX);
    assert_eq!((t.seq, t.ts_ms, t.input_age_ms), (6, u64::MAX, u64::MAX));
    assert_eq!(final_verdict(Some("Clamp".to_string())), Ok("Clamp".to_string()));
    assert_eq!(final_verdict(None), Err("no ticks evaluated".to_string()));
    assert_eq!(saturating_mul(u64::MAX, 2), u64::MAX);
}

#[test]
fn signed_log_chains_its_events() {
    let entries = vec![LoggedPayload { seq: 1, payload_json: "{}".to_string() }];
    let log = render_signed_log(&entries, "m-1", "uas-small", "2026-01-01T00:00:00Z");
    assert_eq!(log.events.len(), 1);
    assert_eq!(log.events[0].tick_ms, 20);
    assert_eq!(log.events[0].payload_digest, "sha256:44136fa355b3678a1146ad16f7e8649e94fb4fc21fe77e8310c060f61caaff8a");
    assert_eq!(log.events[0].hash, "sha256:f7f179b31bf49396652bba539014dce5ba1185bf6926deb1dc6e2b3c66e70e19");
    assert_eq!(log.root, log.events[0].hash);
    assert_eq!(
        log.signature,
        "c2hhMjU2OjA3YzRmMjQ5MThjMzlmNWJmMTgxMzAxZDZmYTEwMGFmNWQ3MmNhZjdlMTU4MjBhNzkzM2NiNWIwZmYyYzExYWI="
    );
    let empty = render_signed_log(&Vec::new(), "m-1", "uas-small", "t");
    assert_eq!(empty.root, "");
}

#[test]
fn incident_fields_follow_the_interlock_decision() {
    assert_eq!(incident_severity(true), "S0");
    assert_eq!(incident_severity(false), "S2");
    assert_eq!(incident_narrative(false), "Interlock denied authority during mission.");
    let refs = mission_evidence_refs("uas-small", "m-1", "sha256:x".to_string());
    assert_eq!(refs.evidence_map_hash, "sha256:97d75c8c62854095a81480a89ed876d1eee2e20b9c8868732cecc50f8f99d188");
    assert_eq!(refs.signed_log_segment_hash, "sha256:x");
}

#[test]
fn trace_arguments_are_read_and_checked() {
    let args = strings(&["--profile", "uas-small", "--trace", "t.json", "--output", "o.json"]);
    let parsed = parse_trace_args(&args).ok().expect("parsed");
    assert_eq!(parsed.repo_root, ".");
    assert_eq!(parsed.trace, "t.json");
    assert!(matches!(parse_trace_args(&strings(&["--profile", "p"])), Err(TraceArgsError::Usage)));
    assert!(matches!(parse_trace_args(&strings(&["--trace"])), Err(TraceArgsError::MissingValue)));
    match parse_trace_args(&strings(&["--bogus"])) {
        Err(e) => assert_eq!(e.message(), "unknown argument --bogus"),
        Ok(_) => panic!("expected an error"),
    }
    assert_eq!(
        check_trace_profile("fixed-wing", "uas-small"),
        Err("trace profile mismatch: trace=fixed-wing, arg=uas-small".to_string())
    );
}

fn trace_tick(tick: u64, verdict: &str, tip: &str) -> TraceTick {
    TraceTick { tick, expected_verdict: verdict.to_string(), expected_reasons: Vec::new(), expected_tip_hash: tip.to_string() }
}

fn outcome(verdict: &str, tip: &str) -> TickOutcome {
    TickOutcome { verdict: verdict.to_string(), reasons: Vec::new(), tip_hash: tip.to_string() }
}

#[test]
fn trace_replay_reports_each_drift() {
    let ticks = vec![trace_tick(1, "Allow", "a"), trace_tick(2, "Allow", "b")];
    let same = vec![outcome("Allow", "a"), outcome("Allow", "b")];
    let report = assess_trace("m".to_string(), "p".to_string(), "0.1".to_string(), &ticks, &same, "b", "b");
    assert_eq!(report.result, "PASS");
    assert_eq!(report.drift_count, 0);

    let drifted = vec![outcome("Allow", "a"), outcome("Hold", "c")];
    let report = assess_trace("m".to_string(), "p".to_string(), "0.1".to_string(), &ticks, &drifted, "b", "c");
    assert_eq!(report.result, "FAIL");
    assert_eq!(report.drift_count, 2);
    assert_eq!(report.drift[0].tick, 2);
    assert_eq!(report.drift[0].actual_verdict, "Hold");
    assert_eq!(report.drift[1].tick, 2);
    assert_eq!(report.drift[1].expected_verdict, "final-tip-hash");
    assert_eq!(report.drift[1].actual_tip_hash, "c");
}

#[test]
fn mission_arguments_and_artifact_names() {
    let args = strings(&["run-mission", "--profile", "uas-small", "--mission-input", "m.json", "--out-dir", "out"]);
    let parsed = parse_mission_args(&args).ok().expect("parsed");
    assert_eq!(parsed.profile, "uas-small");
    assert_eq!(parsed.repo_root, ".");
    match parse_mission_args(&strings(&["fly"])) {
        Err(e @ MissionArgsError::UnsupportedCommand(_)) => assert_eq!(e.message(), "unsupported command fly"),
        _ => panic!("expected an unsupported command"),
    }
    assert!(matches!(parse_mission_args(&Vec::new()), Err(MissionArgsError::MissingCommand)));
    assert!(matches!(parse_mission_args(&strings(&["run-mission"])), Err(MissionArgsError::Usage)));
    let names = artifact_names("m-1");
    assert_eq!(names.signed_log, "signed-operational-log-m-1.json");
    assert_eq!(names.trace, "operational-trace-m-1.json");
    assert_eq!(incident_system_id("uas-small", "m-1"), "sys:uas-small:m-1");
    assert_eq!(
        check_mission_profile("a", "b"),
        Err("mission profile mismatch: input a, arg b".to_string())
    );
}

#[test]
fn runtime_measures_tick_intervals_and_commits_to_its_log() {
    let mut runtime: Runtime<u8> = Runtime::with_limits("fp".to_string(), default_limits());
    assert_eq!(runtime.inter_tick_ms(40), None);
    assert!(runtime.check(&nominal("NED"), 0).is_empty());
    let fields = sample_fields(command_text([1.25, 0.0, 0.0, 0.0]));
    runtime.commit(1, 40, 0, &fields);
    assert_eq!(runtime.inter_tick_ms(60), Some(20));
    assert_eq!(runtime.inter_tick_ms(10), Some(0));
    assert_eq!(runtime.tip_hash(), "a731125f8a0d715cc9f6a962b9b08be9b5cc9dd6fe0bb0fd5b95c320d462d8d4");
    assert_eq!(runtime.log().records.len(), 1);
    let late = runtime.check(&nominal("NED"), 200);
    assert_eq!(late.len(), 2);
    assert_eq!(runtime.contract_fingerprint(), "fp");
}

#[test]
fn interlock_gates_the_commanded_intent() {
    let command = vec![0.25, 0.5];
    assert_eq!(gated_intent(&command, 0.0, true), (0.25, 0.5, 0.0, 0.0));
    assert_eq!(gated_intent(&command, 0.0, false), (0.0, 0.0, 0.0, 0.0));
    let full = vec![1.0, 2.0, 3.0, 4.0, 5.0];
    assert_eq!(gated_intent(&full, 0.0, true), (1.0, 2.0, 3.0, 4.0));
    assert_eq!(mission_final_verdict(None), "Allow");
    assert_eq!(mission_final_verdict(Some("Hold".to_string())), "Hold");
}

#[test]
fn verdicts_select_the_applied_command() {
    let clamped = command_for_verdict(Verdict::Clamp, (1.5, -2.0, 0.5), 0.75, 0.0, -1.0);
    assert_eq!((clamped.roll_rate, clamped.pitch_rate, clamped.yaw_rate, clamped.climb_rate), (1.5, -2.0, 0.5, 0.75));
    assert!(!clamped.shutdown);
    let hold = command_for_verdict(Verdict::Hold, (1.5, -2.0, 0.5), 0.75, 0.0, -1.0);
    assert_eq!((hold.roll_rate, hold.climb_rate, hold.shutdown), (0.0, 0.0, false));
    let over = command_for_verdict(Verdict::Override, (1.5, -2.0, 0.5), 0.75, 0.0, -1.0);
    assert_eq!((over.yaw_rate, over.climb_rate, over.shutdown), (0.0, -1.0, false));
    let off = command_for_verdict(Verdict::Shutdown, (1.5, -2.0, 0.5), 0.75, 0.0, -1.0);
    assert_eq!((off.pitch_rate, off.climb_rate, off.shutdown), (0.0, 0.0, true));
}

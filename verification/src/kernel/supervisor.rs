//! The reference supervisor: incident reports built from an interlock decision and evidence.
use vstd::prelude::*;
use vstd::string::*;

use crate::digest::{sha_prefixed, spec_sha_prefixed};
use crate::kernel::interlock::InterlockDecision;
use vstd::utf8::*;

verus! {

/// Hashes of the evidence an incident report points to.
pub struct EvidenceRefs {
    pub evidence_map_hash: String,
    pub signed_log_segment_hash: String,
    pub replay_recipe_hash: String,
    pub attestation_hash: String,
}

/// The initial incident report (template `tasc-incident-initial-v0.1`).
pub struct IncidentInitial {
    pub template_id: String,
    pub system_id: String,
    pub profile: String,
    pub timestamp_utc: String,
    pub severity: String,
    pub narrative: String,
    pub interlock_allowed: bool,
    pub interlock_reason: String,
    pub interlock_latched: bool,
    pub evidence_refs: EvidenceRefs,
    /// Reporting windows in days: standard, widespread, fatal.
    pub reporting_window_standard_days: u32,
    pub reporting_window_widespread_days: u32,
    pub reporting_window_fatal_days: u32,
}

/// The full incident pack (template `tasc-incident-pack-v0.1`).
pub struct IncidentPack {
    pub template_id: String,
    pub initial_ref: String,
    pub timestamp_utc: String,
    pub required_artifacts: Vec<String>,
    pub evidence_map_ref: String,
    pub signed_operational_log_ref: String,
    pub replay_bundle_ref: String,
    pub attestation_ref: String,
    pub corrective_action_plan_ref: String,
    pub full_pack_sla_days: u32,
}

fn copy_refs(refs: &EvidenceRefs) -> (r: EvidenceRefs)
    ensures
        r.evidence_map_hash@ == refs.evidence_map_hash@,
        r.signed_log_segment_hash@ == refs.signed_log_segment_hash@,
        r.replay_recipe_hash@ == refs.replay_recipe_hash@,
        r.attestation_hash@ == refs.attestation_hash@,
{
    EvidenceRefs {
        evidence_map_hash: refs.evidence_map_hash.clone(),
        signed_log_segment_hash: refs.signed_log_segment_hash.clone(),
        replay_recipe_hash: refs.replay_recipe_hash.clone(),
        attestation_hash: refs.attestation_hash.clone(),
    }
}

/// The initial incident report for a system, its interlock decision and its evidence.
pub fn build_incident_initial(
    system_id: &str,
    profile: &str,
    severity: &str,
    narrative: &str,
    refs: &EvidenceRefs,
    decision: &InterlockDecision,
    timestamp_utc: &str,
) -> (r: IncidentInitial)
    ensures
        r.template_id@ == "tasc-incident-initial-v0.1"@,
        r.system_id@ == system_id@,
        r.profile@ == profile@,
        r.timestamp_utc@ == timestamp_utc@,
        r.severity@ == severity@,
        r.narrative@ == narrative@,
        r.interlock_allowed == decision.allowed,
        r.interlock_reason@ == decision.reason@,
        r.interlock_latched == decision.latched,
        r.evidence_refs.evidence_map_hash@ == refs.evidence_map_hash@,
        r.evidence_refs.signed_log_segment_hash@ == refs.signed_log_segment_hash@,
        r.evidence_refs.replay_recipe_hash@ == refs.replay_recipe_hash@,
        r.evidence_refs.attestation_hash@ == refs.attestation_hash@,
        r.reporting_window_standard_days == 15,
        r.reporting_window_widespread_days == 2,
        r.reporting_window_fatal_days == 10,
{
    IncidentInitial {
        template_id: "tasc-incident-initial-v0.1".to_owned(),
        system_id: system_id.to_owned(),
        profile: profile.to_owned(),
        timestamp_utc: timestamp_utc.to_owned(),
        severity: severity.to_owned(),
        narrative: narrative.to_owned(),
        interlock_allowed: decision.allowed,
        interlock_reason: decision.reason.clone(),
        interlock_latched: decision.latched,
        evidence_refs: copy_refs(refs),
        reporting_window_standard_days: 15,
        reporting_window_widespread_days: 2,
        reporting_window_fatal_days: 10,
    }
}

/// The artifacts every incident pack must contain, in order.
pub open spec fn required_artifact_names() -> Seq<Seq<char>> {
    seq![
        "EvidenceMap"@,
        "SignedOperationalLog"@,
        "TransparencyProofs"@,
        "ReplayBundle"@,
        "ConfigurationBaseline"@,
        "CorrectiveActionPlan"@,
    ]
}

/// The full incident pack built on the evidence references of an initial report.
pub fn build_incident_pack(
    initial_refs: &EvidenceRefs,
    corrective_action_plan_hash: &str,
    timestamp_utc: &str,
) -> (r: IncidentPack)
    ensures
        r.template_id@ == "tasc-incident-pack-v0.1"@,
        r.initial_ref@ == initial_refs.evidence_map_hash@,
        r.timestamp_utc@ == timestamp_utc@,
        r.required_artifacts@.len() == 6,
        forall|i: int| 0 <= i < 6 ==> (#[trigger] r.required_artifacts@[i])@ == required_artifact_names()[i],
        r.evidence_map_ref@ == initial_refs.evidence_map_hash@,
        r.signed_operational_log_ref@ == initial_refs.signed_log_segment_hash@,
        r.replay_bundle_ref@ == initial_refs.replay_recipe_hash@,
        r.attestation_ref@ == initial_refs.attestation_hash@,
        r.corrective_action_plan_ref@ == corrective_action_plan_hash@,
        r.full_pack_sla_days == 10,
{
    let mut required: Vec<String> = Vec::new();
    required.push("EvidenceMap".to_owned());
    required.push("SignedOperationalLog".to_owned());
    required.push("TransparencyProofs".to_owned());
    required.push("ReplayBundle".to_owned());
    required.push("ConfigurationBaseline".to_owned());
    required.push("CorrectiveActionPlan".to_owned());
    IncidentPack {
        template_id: "tasc-incident-pack-v0.1".to_owned(),
        initial_ref: initial_refs.evidence_map_hash.clone(),
        timestamp_utc: timestamp_utc.to_owned(),
        required_artifacts: required,
        evidence_map_ref: initial_refs.evidence_map_hash.clone(),
        signed_operational_log_ref: initial_refs.signed_log_segment_hash.clone(),
        replay_bundle_ref: initial_refs.replay_recipe_hash.clone(),
        attestation_ref: initial_refs.attestation_hash.clone(),
        corrective_action_plan_ref: corrective_action_plan_hash.to_owned(),
        full_pack_sla_days: 10,
    }
}

/// The incident severity for a mission's last interlock decision: `S0` if authority was
/// granted, `S2` if it was denied.
pub fn incident_severity(allowed: bool) -> (r: &'static str)
    ensures
        r@ == (if allowed { "S0"@ } else { "S2"@ }),
{
    if allowed {
        "S0"
    } else {
        "S2"
    }
}

/// The incident narrative for a mission's last interlock decision.
pub fn incident_narrative(allowed: bool) -> (r: &'static str)
    ensures
        r@ == (if allowed {
            "Mission completed without safety intervention."@
        } else {
            "Interlock denied authority during mission."@
        }),
{
    if allowed {
        "Mission completed without safety intervention."
    } else {
        "Interlock denied authority during mission."
    }
}

/// The evidence references of a mission: the profile's hash, the digest of its signed log,
/// and the hashes of its replay recipe and attestation names.
pub fn mission_evidence_refs(profile: &str, mission_id: &str, signed_log_digest: String) -> (r: EvidenceRefs)
    ensures
        r.evidence_map_hash@ == spec_sha_prefixed(encode_utf8(profile@)),
        r.signed_log_segment_hash@ == signed_log_digest@,
        r.replay_recipe_hash@ == spec_sha_prefixed(encode_utf8("replay:"@ + mission_id@)),
        r.attestation_hash@ == spec_sha_prefixed(encode_utf8("attestation:"@ + mission_id@)),
{
    let replay = "replay:".to_owned().concat(mission_id);
    let attestation = "attestation:".to_owned().concat(mission_id);
    EvidenceRefs {
        evidence_map_hash: sha_prefixed(profile.as_bytes()),
        signed_log_segment_hash: signed_log_digest,
        replay_recipe_hash: sha_prefixed(replay.as_str().as_bytes()),
        attestation_hash: sha_prefixed(attestation.as_str().as_bytes()),
    }
}

} // verus!

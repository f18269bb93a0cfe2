//! The replay-drift conformance validator: fixture checks and the assessment of replay runs.
use vstd::prelude::*;
use vstd::string::*;

use crate::text::{str_eq, string_eq_str, strings_view};

verus! {

/// The smoke-test vector file of a supported profile.
pub open spec fn spec_profile_vector_name(profile: Seq<char>) -> Option<Seq<char>> {
    if profile == "uas-small"@ {
        Some("kernel-smoke.json"@)
    } else if profile == "fixed-wing"@ {
        Some("kernel-smoke-fixed-wing.json"@)
    } else if profile == "hybrid-vtol"@ {
        Some("kernel-smoke-hybrid-vtol.json"@)
    } else {
        None
    }
}

/// Why a replay validation could not be carried out.
pub enum ConformanceError {
    /// No vector file is known for the profile.
    UnsupportedProfile(String),
    /// The vector was recorded for another profile.
    VectorProfileMismatch { profile: String, vector_profile: String },
    /// The fixture was recorded for another profile.
    FixtureProfileMismatch { profile: String, fixture_profile: String },
    /// The fixture asks for zero ticks.
    ZeroTicks(String),
    /// The fixture's time step is zero.
    ZeroTimeStep(String),
}

/// The vector file name of a supported profile.
pub fn profile_vector_name(profile: &str) -> (r: Result<&'static str, ConformanceError>)
    ensures
        spec_profile_vector_name(profile@) matches Some(name) ==> (r matches Ok(n) && n@ == name),
        spec_profile_vector_name(profile@) is None ==> (r matches Err(ConformanceError::UnsupportedProfile(p))
            && p@ == profile@),
{
    if str_eq(profile, "uas-small") {
        Ok("kernel-smoke.json")
    } else if str_eq(profile, "fixed-wing") {
        Ok("kernel-smoke-fixed-wing.json")
    } else if str_eq(profile, "hybrid-vtol") {
        Ok("kernel-smoke-hybrid-vtol.json")
    } else {
        Err(ConformanceError::UnsupportedProfile(profile.to_owned()))
    }
}

/// One step of the 64-bit linear congruential generator (Knuth's MMIX constants), wrapping.
pub open spec fn spec_lcg_step(state: u64) -> u64 {
    ((state as int * 6364136223846793005 + 1442695040888963407) % 0x1_0000_0000_0000_0000) as u64
}

pub fn lcg_step(state: u64) -> (r: u64)
    ensures
        r == spec_lcg_step(state),
{
    let product = state.wrapping_mul(6364136223846793005);
    let r = product.wrapping_add(1442695040888963407);
    assert(r == spec_lcg_step(state)) by (nonlinear_arith)
        requires
            product == (state as int * 6364136223846793005) % 0x1_0000_0000_0000_0000,
            r == (product + 1442695040888963407) % 0x1_0000_0000_0000_0000,
    ;
    r
}

/// The generator state behind the noise of one channel at one tick: the seed mixed with
/// the tick number plus one and the channel, each scaled by a mixing constant, then one
/// generator step.
pub open spec fn spec_noise_state(seed: u64, tick_idx: u64, channel: u64) -> u64 {
    spec_lcg_step(seed ^ tick_idx.wrapping_add(1).wrapping_mul(0x9E3779B97F4A7C15)
        ^ channel.wrapping_mul(0xBF58476D1CE4E5B9))
}

/// The 53 random bits a noise sample is scaled from: the top 53 bits of the noise state.
/// The sample is `(bits / 2^53 - 0.5) * 2 * amplitude`.
pub fn noise_bits(seed: u64, tick_idx: u64, channel: u64) -> (r: u64)
    ensures
        r == spec_noise_state(seed, tick_idx, channel) >> 11u64,
        r < 0x20_0000_0000_0000,
{
    let state = seed ^ tick_idx.wrapping_add(1).wrapping_mul(0x9E3779B97F4A7C15)
        ^ channel.wrapping_mul(0xBF58476D1CE4E5B9);
    let next = lcg_step(state);
    let bits = next >> 11u64;
    assert(next >> 11u64 < 0x20_0000_0000_0000) by (bit_vector);
    bits
}

/// The tick fields of the `idx`-th input of a simulated run: sequence number `idx + 1`,
/// time `idx * time_step_ms` (saturating), and the input's age grown by `idx % 3`
/// (saturating).
pub struct SequenceTick {
    pub seq: u64,
    pub ts_ms: u64,
    pub input_age_ms: u64,
}

pub open spec fn saturating(v: int) -> u64 {
    if v > u64::MAX { u64::MAX } else { v as u64 }
}

/// The tick fields of the `idx`-th input of a simulated run.
pub fn sequence_tick(idx: u64, time_step_ms: u64, base_input_age_ms: u64) -> (r: SequenceTick)
    requires
        idx < u64::MAX,
    ensures
        r.seq == idx + 1,
        r.ts_ms == saturating(idx * time_step_ms),
        r.input_age_ms == saturating(base_input_age_ms + idx % 3),
{
    let extra: u64 = if idx % 3 < 2 { idx % 3 } else { 2 };
    let ts = crate::kernel::mission::saturating_mul(idx, time_step_ms);
    let age = base_input_age_ms.saturating_add(extra);
    SequenceTick { seq: idx + 1, ts_ms: ts, input_age_ms: age }
}

/// The final verdict of a simulated run: the last tick's, or an error when no tick ran.
pub fn final_verdict(last_verdict: Option<String>) -> (r: Result<String, String>)
    ensures
        last_verdict matches Some(v) ==> (r matches Ok(w) && w@ == v@),
        last_verdict is None ==> (r matches Err(m) && m@ == "no ticks evaluated"@),
{
    match last_verdict {
        Some(v) => Ok(v),
        None => Err("no ticks evaluated".to_string()),
    }
}

/// What a drift run (same vector, shifted seed) must show.
pub struct DriftPolicy {
    pub seed_offset: u64,
    pub require_tip_hash_change: bool,
    pub require_verdict_stable: bool,
}

/// Seed offset of a drift policy that names none.
pub fn default_seed_offset() -> (r: u64)
    ensures
        r == 1,
{
    1
}

/// Default of a drift policy's requirements.
pub fn default_true() -> (r: bool)
    ensures
        r,
{
    true
}

impl DriftPolicy {
    /// Offset 1; both the tip-hash change and verdict stability are required.
    pub fn default_policy() -> (r: Self)
        ensures
            r.seed_offset == 1,
            r.require_tip_hash_change,
            r.require_verdict_stable,
    {
        DriftPolicy {
            seed_offset: default_seed_offset(),
            require_tip_hash_change: default_true(),
            require_verdict_stable: default_true(),
        }
    }
}

impl Default for DriftPolicy {
    fn default() -> (r: Self)
        ensures
            r.seed_offset == 1,
            r.require_tip_hash_change,
            r.require_verdict_stable,
    {
        DriftPolicy::default_policy()
    }
}

/// A replay fixture: the seed and length of a run and what it is expected to produce.
pub struct ReplayFixture {
    pub fixture_id: String,
    pub description: String,
    pub profile: String,
    pub seed: u64,
    pub ticks: u64,
    pub time_step_ms: u64,
    pub expected_final_verdict: String,
    pub expected_tip_hash: String,
    pub drift: DriftPolicy,
}

/// The outcome of one simulated run.
pub struct SimResult {
    pub final_verdict: String,
    pub tip_hash: String,
}

/// The replay report of one profile.
pub struct ProfileReplayReport {
    pub profile: String,
    pub fixture_id: String,
    pub baseline_tip_hash: String,
    pub baseline_final_verdict: String,
    pub repeated_tip_hash: String,
    pub repeated_final_verdict: String,
    pub drift_tip_hash: String,
    pub drift_final_verdict: String,
    pub expected_tip_hash: String,
    pub expected_final_verdict: String,
    pub result: String,
    pub failures: Vec<String>,
}

/// Checks that the vector and the fixture belong to `profile` and that the fixture describes
/// a run of at least one tick with a non-zero time step.
pub fn check_replay_inputs(profile: &str, vector_profile: &str, fixture: &ReplayFixture) -> (r: Result<
    (),
    ConformanceError,
>)
    ensures
        vector_profile@ != profile@ ==> (r matches Err(ConformanceError::VectorProfileMismatch { profile: p, vector_profile: v })
            && p@ == profile@ && v@ == vector_profile@),
        vector_profile@ == profile@ && fixture.profile@ != profile@ ==> (r matches Err(
            ConformanceError::FixtureProfileMismatch { profile: p, fixture_profile: f },
        ) && p@ == profile@ && f@ == fixture.profile@),
        vector_profile@ == profile@ && fixture.profile@ == profile@ && fixture.ticks == 0 ==> (r matches Err(
            ConformanceError::ZeroTicks(p),
        ) && p@ == profile@),
        vector_profile@ == profile@ && fixture.profile@ == profile@ && fixture.ticks != 0
            && fixture.time_step_ms == 0 ==> (r matches Err(ConformanceError::ZeroTimeStep(p)) && p@ == profile@),
        vector_profile@ == profile@ && fixture.profile@ == profile@ && fixture.ticks != 0
            && fixture.time_step_ms != 0 ==> r is Ok,
{
    if !str_eq(vector_profile, profile) {
        return Err(
            ConformanceError::VectorProfileMismatch {
                profile: profile.to_owned(),
                vector_profile: vector_profile.to_owned(),
            },
        );
    }
    if !str_eq(fixture.profile.as_str(), profile) {
        return Err(
            ConformanceError::FixtureProfileMismatch {
                profile: profile.to_owned(),
                fixture_profile: fixture.profile.clone(),
            },
        );
    }
    if fixture.ticks == 0 {
        return Err(ConformanceError::ZeroTicks(profile.to_owned()));
    }
    if fixture.time_step_ms == 0 {
        return Err(ConformanceError::ZeroTimeStep(profile.to_owned()));
    }
    Ok(())
}

/// The seed of the drift run: the fixture's seed plus the policy's offset, saturating.
pub fn drift_seed(fixture: &ReplayFixture) -> (r: u64)
    ensures
        r == (if fixture.seed + fixture.drift.seed_offset > u64::MAX {
            u64::MAX
        } else {
            (fixture.seed + fixture.drift.seed_offset) as u64
        }),
{
    fixture.seed.saturating_add(fixture.drift.seed_offset)
}

pub open spec fn when_text(c: bool, t: Seq<char>) -> Seq<Seq<char>> {
    if c {
        seq![t]
    } else {
        Seq::empty()
    }
}

/// The failures of a replay assessment, in the order the validator reports them.
pub open spec fn spec_replay_failures(
    expected_verdict: Seq<char>,
    expected_tip: Seq<char>,
    policy: DriftPolicy,
    a_verdict: Seq<char>,
    a_tip: Seq<char>,
    b_verdict: Seq<char>,
    b_tip: Seq<char>,
    d_verdict: Seq<char>,
    d_tip: Seq<char>,
) -> Seq<Seq<char>> {
    when_text(a_verdict != b_verdict, "same-seed final verdict mismatch across runs"@)
    + when_text(a_tip != b_tip, "same-seed tip hash mismatch across runs"@)
    + when_text(expected_verdict.len() > 0 && a_verdict != expected_verdict,
        "baseline verdict "@ + a_verdict + " != fixture expected "@ + expected_verdict)
    + when_text(expected_tip.len() > 0 && a_tip != expected_tip,
        "baseline tip hash "@ + a_tip + " != fixture expected "@ + expected_tip)
    + when_text(policy.require_tip_hash_change && a_tip == d_tip, "drift seed did not change tip hash"@)
    + when_text(policy.require_verdict_stable && a_verdict != d_verdict,
        "drift changed verdict "@ + a_verdict + " -> "@ + d_verdict + " despite require_verdict_stable=true"@)
}

fn push_failure_if(failures: &mut Vec<String>, condition: bool, text: String)
    ensures
        strings_view(final(failures)@) == strings_view(old(failures)@) + when_text(condition, text@),
{
    let ghost before = failures@;
    if condition {
        failures.push(text);
    }
    assert(strings_view(failures@) =~= strings_view(before) + when_text(condition, text@));
}

fn join3(a: &str, b: &str, c: &str) -> (r: String)
    ensures
        r@ == a@ + b@ + c@,
{
    a.to_owned().concat(b).concat(c)
}

/// The assessment of a profile's replay: the baseline run is compared with a repeat of it,
/// with the fixture's expectations and with the drift run. With `update_fixtures` the
/// fixture's expectations are first replaced by the baseline and the updated fixture is
/// returned.
pub fn assess_replay(
    profile: &str,
    fixture: ReplayFixture,
    baseline: SimResult,
    repeated: SimResult,
    drift: SimResult,
    update_fixtures: bool,
) -> (r: (ProfileReplayReport, Option<ReplayFixture>))
    ensures
        ({
            let expected_verdict = if update_fixtures { baseline.final_verdict@ } else { fixture.expected_final_verdict@ };
            let expected_tip = if update_fixtures { baseline.tip_hash@ } else { fixture.expected_tip_hash@ };
            let failures = spec_replay_failures(
                expected_verdict,
                expected_tip,
                fixture.drift,
                baseline.final_verdict@,
                baseline.tip_hash@,
                repeated.final_verdict@,
                repeated.tip_hash@,
                drift.final_verdict@,
                drift.tip_hash@,
            );
            let report = r.0;
            &&& strings_view(report.failures@) == failures
            &&& report.result@ == (if failures.len() == 0 { "PASS"@ } else { "FAIL"@ })
            &&& report.profile@ == profile@
            &&& report.fixture_id@ == fixture.fixture_id@
            &&& report.baseline_tip_hash@ == baseline.tip_hash@
            &&& report.baseline_final_verdict@ == baseline.final_verdict@
            &&& report.repeated_tip_hash@ == repeated.tip_hash@
            &&& report.repeated_final_verdict@ == repeated.final_verdict@
            &&& report.drift_tip_hash@ == drift.tip_hash@
            &&& report.drift_final_verdict@ == drift.final_verdict@
            &&& report.expected_tip_hash@ == expected_tip
            &&& report.expected_final_verdict@ == expected_verdict
            &&& update_fixtures ==> (r.1 matches Some(f) && {
                &&& f.fixture_id@ == fixture.fixture_id@
                &&& f.description@ == fixture.description@
                &&& f.profile@ == fixture.profile@
                &&& f.seed == fixture.seed
                &&& f.ticks == fixture.ticks
                &&& f.time_step_ms == fixture.time_step_ms
                &&& f.expected_final_verdict@ == baseline.final_verdict@
                &&& f.expected_tip_hash@ == baseline.tip_hash@
                &&& f.drift == fixture.drift
            })
            &&& !update_fixtures ==> r.1 is None
        }),
{
    let mut fixture = fixture;
    if update_fixtures {
        fixture.expected_final_verdict = baseline.final_verdict.clone();
        fixture.expected_tip_hash = baseline.tip_hash.clone();
    }
    let a_v = baseline.final_verdict.as_str();
    let a_h = baseline.tip_hash.as_str();
    let exp_v = fixture.expected_final_verdict.as_str();
    let exp_h = fixture.expected_tip_hash.as_str();
    let mut failures: Vec<String> = Vec::new();
    assert(strings_view(failures@) =~= Seq::<Seq<char>>::empty());
    push_failure_if(
        &mut failures,
        !str_eq(a_v, repeated.final_verdict.as_str()),
        "same-seed final verdict mismatch across runs".to_owned(),
    );
    push_failure_if(
        &mut failures,
        !str_eq(a_h, repeated.tip_hash.as_str()),
        "same-seed tip hash mismatch across runs".to_owned(),
    );
    let verdict_text = join3("baseline verdict ", a_v, " != fixture expected ").concat(exp_v);
    push_failure_if(&mut failures, exp_v.unicode_len() > 0 && !str_eq(a_v, exp_v), verdict_text);
    let tip_text = join3("baseline tip hash ", a_h, " != fixture expected ").concat(exp_h);
    push_failure_if(&mut failures, exp_h.unicode_len() > 0 && !str_eq(a_h, exp_h), tip_text);
    push_failure_if(
        &mut failures,
        fixture.drift.require_tip_hash_change && str_eq(a_h, drift.tip_hash.as_str()),
        "drift seed did not change tip hash".to_owned(),
    );
    let drift_text = join3("drift changed verdict ", a_v, " -> ").concat(drift.final_verdict.as_str()).concat(
        " despite require_verdict_stable=true",
    );
    push_failure_if(
        &mut failures,
        fixture.drift.require_verdict_stable && !str_eq(a_v, drift.final_verdict.as_str()),
        drift_text,
    );
    let result = if failures.len() == 0 {
        "PASS".to_owned()
    } else {
        "FAIL".to_owned()
    };
    let report = ProfileReplayReport {
        profile: profile.to_owned(),
        fixture_id: fixture.fixture_id.clone(),
        baseline_tip_hash: baseline.tip_hash.clone(),
        baseline_final_verdict: baseline.final_verdict.clone(),
        repeated_tip_hash: repeated.tip_hash,
        repeated_final_verdict: repeated.final_verdict,
        drift_tip_hash: drift.tip_hash,
        drift_final_verdict: drift.final_verdict,
        expected_tip_hash: fixture.expected_tip_hash.clone(),
        expected_final_verdict: fixture.expected_final_verdict.clone(),
        result,
        failures,
    };
    let updated = if update_fixtures {
        Some(fixture)
    } else {
        None
    };
    (report, updated)
}

/// The identity of the replay-drift validator.
pub fn validator_name() -> (r: String)
    ensures
        r@ == "asc-conformance-kernel/replay-drift-validator@0.1.0"@,
{
    "asc-conformance-kernel/replay-drift-validator@0.1.0".to_owned()
}

/// The overall result over all profiles: `FAIL` if some profile failed, `PASS` otherwise.
pub fn overall_result(reports: &Vec<ProfileReplayReport>) -> (r: String)
    ensures
        r@ == (if exists|i: int| 0 <= i < reports@.len() && (#[trigger] reports@[i]).result@ == "FAIL"@ {
            "FAIL"@
        } else {
            "PASS"@
        }),
{
    let mut i: usize = 0;
    while i < reports.len()
        invariant
            i <= reports.len(),
            forall|j: int| 0 <= j < i ==> (#[trigger] reports@[j]).result@ != "FAIL"@,
        decreases reports.len() - i,
    {
        if string_eq_str(&reports[i].result, "FAIL") {
            return "FAIL".to_owned();
        }
        i = i + 1;
    }
    "PASS".to_owned()
}

/// With `update_fixtures` the baseline can never fail against the fixture's expectations:
/// a run whose repeat and drift behave as the policy asks passes.
pub proof fn updated_fixture_never_fails_expectations(
    fixture_verdict: Seq<char>,
    fixture_tip: Seq<char>,
    policy: DriftPolicy,
    a_verdict: Seq<char>,
    a_tip: Seq<char>,
    d_verdict: Seq<char>,
    d_tip: Seq<char>,
)
    requires
        !policy.require_tip_hash_change || a_tip != d_tip,
        !policy.require_verdict_stable || a_verdict == d_verdict,
    ensures
        spec_replay_failures(a_verdict, a_tip, policy, a_verdict, a_tip, a_verdict, a_tip, d_verdict, d_tip).len() == 0,
{
}

/// A replay passes exactly when the repeat reproduces the baseline, the baseline meets every
/// non-empty expectation, and the drift run behaves as the policy asks.
pub proof fn replay_passes_exactly_when_reproducible(
    expected_verdict: Seq<char>,
    expected_tip: Seq<char>,
    policy: DriftPolicy,
    a_verdict: Seq<char>,
    a_tip: Seq<char>,
    b_verdict: Seq<char>,
    b_tip: Seq<char>,
    d_verdict: Seq<char>,
    d_tip: Seq<char>,
)
    ensures
        spec_replay_failures(expected_verdict, expected_tip, policy, a_verdict, a_tip, b_verdict, b_tip, d_verdict, d_tip).len() == 0
            <==> (a_verdict == b_verdict && a_tip == b_tip
                && (expected_verdict.len() == 0 || a_verdict == expected_verdict)
                && (expected_tip.len() == 0 || a_tip == expected_tip)
                && (!policy.require_tip_hash_change || a_tip != d_tip)
                && (!policy.require_verdict_stable || a_verdict == d_verdict)),
{
}

} // verus!

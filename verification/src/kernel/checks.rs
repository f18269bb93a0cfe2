//! The kernel's per-tick safety checks.
//!
//! The physical thresholds (speed, position box, rates, energy, altitude and attitude) are
//! compared by the caller, which reports each comparison in a [`StateAssessment`]; the checks
//! here decide which outcomes fire, in which order, with which verdict, reason and severity.
use vstd::prelude::*;

use crate::kernel::verdict::{CheckOutcome, ReasonCode, Severity, Verdict};
use crate::text::str_eq;

verus! {

/// What the caller measured of one kernel input against the physical limits.
pub struct StateAssessment {
    /// All six state values (three position axes, velocity, bank, state of charge) are finite.
    pub state_finite: bool,
    /// The frame the state is reported in.
    pub frame: String,
    /// Velocity is above the maximum speed.
    pub over_speed: bool,
    /// Some position axis is outside the position box.
    pub outside_position_bounds: bool,
    /// Some desired rate or the climb rate exceeds its limit in magnitude.
    pub rate_limit_exceeded: bool,
    /// State of charge is below the minimum.
    pub below_min_soc: bool,
    /// Age of the input, in milliseconds.
    pub input_age_ms: u64,
    /// Altitude is below the minimum, or the bank angle exceeds the bank or attitude limit.
    pub invariant_breached: bool,
}

/// The limits that the checks compare exactly: the expected frame and the time budgets.
pub struct DiscreteLimits {
    pub frame: String,
    pub max_input_age_ms: u64,
    pub max_tick_interval_ms: u64,
    pub deadline_ms: u64,
}

pub open spec fn outcome(verdict: Verdict, reason: ReasonCode, severity: Severity) -> CheckOutcome {
    CheckOutcome { verdict, reason, severity }
}

pub open spec fn fired(condition: bool, o: CheckOutcome) -> Seq<CheckOutcome> {
    if condition {
        seq![o]
    } else {
        Seq::empty()
    }
}

pub open spec fn tick_interval_exceeded(inter_tick_ms: Option<u64>, limits: DiscreteLimits) -> bool {
    inter_tick_ms is Some && inter_tick_ms->0 > limits.max_tick_interval_ms
}

pub open spec fn deadline_missed(inter_tick_ms: Option<u64>, limits: DiscreteLimits) -> bool {
    inter_tick_ms is Some && inter_tick_ms->0 > limits.deadline_ms
}

/// The outcomes of all checks, in the order the kernel evaluates them.
pub open spec fn spec_checks(
    a: StateAssessment,
    inter_tick_ms: Option<u64>,
    limits: DiscreteLimits,
) -> Seq<CheckOutcome> {
    fired(!a.state_finite, outcome(Verdict::Shutdown, ReasonCode::StateOutOfBounds, Severity::Critical))
    + fired(a.frame@ != limits.frame@, outcome(Verdict::Shutdown, ReasonCode::StateInvalidFrame, Severity::Critical))
    + fired(a.over_speed, outcome(Verdict::Clamp, ReasonCode::StateOutOfBounds, Severity::Warning))
    + fired(a.outside_position_bounds, outcome(Verdict::Clamp, ReasonCode::StateOutOfBounds, Severity::Warning))
    + fired(a.rate_limit_exceeded, outcome(Verdict::Clamp, ReasonCode::FlowConstraintViolation, Severity::Warning))
    + fired(a.below_min_soc, outcome(Verdict::Hold, ReasonCode::EnergyBudgetExceeded, Severity::Critical))
    + fired(a.input_age_ms > limits.max_input_age_ms, outcome(Verdict::Hold, ReasonCode::InputStale, Severity::Critical))
    + fired(tick_interval_exceeded(inter_tick_ms, limits), outcome(Verdict::Override, ReasonCode::TemporalGuaranteeViolation, Severity::Critical))
    + fired(deadline_missed(inter_tick_ms, limits), outcome(Verdict::Override, ReasonCode::DeadlineMiss, Severity::Critical))
    + fired(a.invariant_breached, outcome(Verdict::Shutdown, ReasonCode::InvariantViolation, Severity::Critical))
}

fn push_if(out: &mut Vec<CheckOutcome>, condition: bool, o: CheckOutcome)
    ensures
        final(out)@ == old(out)@ + fired(condition, o),
{
    if condition {
        out.push(o);
    }
    assert(final(out)@ =~= old(out)@ + fired(condition, o));
}

/// Runs every check on one assessed input; `inter_tick_ms` is the time since the previous
/// tick, if there was one.
pub fn evaluate_checks(
    assessment: &StateAssessment,
    inter_tick_ms: Option<u64>,
    limits: &DiscreteLimits,
) -> (outcomes: Vec<CheckOutcome>)
    ensures
        outcomes@ == spec_checks(*assessment, inter_tick_ms, *limits),
{
    let mut out: Vec<CheckOutcome> = Vec::new();
    push_if(&mut out, !assessment.state_finite, CheckOutcome {
        verdict: Verdict::Shutdown,
        reason: ReasonCode::StateOutOfBounds,
        severity: Severity::Critical,
    });
    push_if(&mut out, !str_eq(assessment.frame.as_str(), limits.frame.as_str()), CheckOutcome {
        verdict: Verdict::Shutdown,
        reason: ReasonCode::StateInvalidFrame,
        severity: Severity::Critical,
    });
    push_if(&mut out, assessment.over_speed, CheckOutcome {
        verdict: Verdict::Clamp,
        reason: ReasonCode::StateOutOfBounds,
        severity: Severity::Warning,
    });
    push_if(&mut out, assessment.outside_position_bounds, CheckOutcome {
        verdict: Verdict::Clamp,
        reason: ReasonCode::StateOutOfBounds,
        severity: Severity::Warning,
    });
    push_if(&mut out, assessment.rate_limit_exceeded, CheckOutcome {
        verdict: Verdict::Clamp,
        reason: ReasonCode::FlowConstraintViolation,
        severity: Severity::Warning,
    });
    push_if(&mut out, assessment.below_min_soc, CheckOutcome {
        verdict: Verdict::Hold,
        reason: ReasonCode::EnergyBudgetExceeded,
        severity: Severity::Critical,
    });
    push_if(&mut out, assessment.input_age_ms > limits.max_input_age_ms, CheckOutcome {
        verdict: Verdict::Hold,
        reason: ReasonCode::InputStale,
        severity: Severity::Critical,
    });
    let (interval_exceeded, deadline_miss) = match inter_tick_ms {
        Some(delta_ms) => (delta_ms > limits.max_tick_interval_ms, delta_ms > limits.deadline_ms),
        None => (false, false),
    };
    push_if(&mut out, interval_exceeded, CheckOutcome {
        verdict: Verdict::Override,
        reason: ReasonCode::TemporalGuaranteeViolation,
        severity: Severity::Critical,
    });
    push_if(&mut out, deadline_miss, CheckOutcome {
        verdict: Verdict::Override,
        reason: ReasonCode::DeadlineMiss,
        severity: Severity::Critical,
    });
    push_if(&mut out, assessment.invariant_breached, CheckOutcome {
        verdict: Verdict::Shutdown,
        reason: ReasonCode::InvariantViolation,
        severity: Severity::Critical,
    });
    assert(out@ =~= spec_checks(*assessment, inter_tick_ms, *limits));
    out
}

/// The reason of each outcome, in order.
pub open spec fn outcome_reasons(outcomes: Seq<CheckOutcome>) -> Seq<ReasonCode> {
    outcomes.map_values(|o: CheckOutcome| o.reason)
}

/// Collects the reason of each outcome, in order.
pub fn reasons_of(outcomes: &Vec<CheckOutcome>) -> (r: Vec<ReasonCode>)
    ensures
        r@ == outcome_reasons(outcomes@),
{
    let mut r: Vec<ReasonCode> = Vec::new();
    let mut i: usize = 0;
    while i < outcomes.len()
        invariant
            i <= outcomes.len(),
            r@ == outcome_reasons(outcomes@.subrange(0, i as int)),
        decreases outcomes.len() - i,
    {
        r.push(outcomes[i].reason);
        assert(r@ =~= outcome_reasons(outcomes@.subrange(0, i + 1)));
        i = i + 1;
    }
    assert(outcomes@.subrange(0, outcomes.len() as int) =~= outcomes@);
    r
}

proof fn lemma_fired_members(c: bool, o: CheckOutcome, x: CheckOutcome)
    ensures
        fired(c, o).contains(x) <==> (c && x == o),
{
    if c {
        assert(fired(c, o)[0] == o);
    }
}

/// Every fired check is a Warning exactly when it demands a Clamp; all other verdicts are Critical.
pub proof fn severity_matches_verdict(a: StateAssessment, inter_tick_ms: Option<u64>, limits: DiscreteLimits)
    ensures
        forall|i: int| 0 <= i < spec_checks(a, inter_tick_ms, limits).len() ==>
            ((#[trigger] spec_checks(a, inter_tick_ms, limits)[i]).severity == Severity::Warning
                <==> spec_checks(a, inter_tick_ms, limits)[i].verdict == Verdict::Clamp),
{
    let s = spec_checks(a, inter_tick_ms, limits);
    assert forall|i: int| 0 <= i < s.len() implies ((#[trigger] s[i]).severity == Severity::Warning
        <==> s[i].verdict == Verdict::Clamp) by {
        assert(s.contains(s[i]));
        lemma_checks_members(a, inter_tick_ms, limits, s[i]);
    }
}

/// Membership in the check outcomes, one fired rule at a time.
proof fn lemma_checks_members(a: StateAssessment, inter_tick_ms: Option<u64>, limits: DiscreteLimits, x: CheckOutcome)
    ensures
        spec_checks(a, inter_tick_ms, limits).contains(x) <==> (
            (!a.state_finite && x == outcome(Verdict::Shutdown, ReasonCode::StateOutOfBounds, Severity::Critical))
            || (a.frame@ != limits.frame@ && x == outcome(Verdict::Shutdown, ReasonCode::StateInvalidFrame, Severity::Critical))
            || (a.over_speed && x == outcome(Verdict::Clamp, ReasonCode::StateOutOfBounds, Severity::Warning))
            || (a.outside_position_bounds && x == outcome(Verdict::Clamp, ReasonCode::StateOutOfBounds, Severity::Warning))
            || (a.rate_limit_exceeded && x == outcome(Verdict::Clamp, ReasonCode::FlowConstraintViolation, Severity::Warning))
            || (a.below_min_soc && x == outcome(Verdict::Hold, ReasonCode::EnergyBudgetExceeded, Severity::Critical))
            || (a.input_age_ms > limits.max_input_age_ms && x == outcome(Verdict::Hold, ReasonCode::InputStale, Severity::Critical))
            || (tick_interval_exceeded(inter_tick_ms, limits) && x == outcome(Verdict::Override, ReasonCode::TemporalGuaranteeViolation, Severity::Critical))
            || (deadline_missed(inter_tick_ms, limits) && x == outcome(Verdict::Override, ReasonCode::DeadlineMiss, Severity::Critical))
            || (a.invariant_breached && x == outcome(Verdict::Shutdown, ReasonCode::InvariantViolation, Severity::Critical))
        ),
{
    let p0 = fired(!a.state_finite, outcome(Verdict::Shutdown, ReasonCode::StateOutOfBounds, Severity::Critical));
    let p1 = fired(a.frame@ != limits.frame@, outcome(Verdict::Shutdown, ReasonCode::StateInvalidFrame, Severity::Critical));
    let p2 = fired(a.over_speed, outcome(Verdict::Clamp, ReasonCode::StateOutOfBounds, Severity::Warning));
    let p3 = fired(a.outside_position_bounds, outcome(Verdict::Clamp, ReasonCode::StateOutOfBounds, Severity::Warning));
    let p4 = fired(a.rate_limit_exceeded, outcome(Verdict::Clamp, ReasonCode::FlowConstraintViolation, Severity::Warning));
    let p5 = fired(a.below_min_soc, outcome(Verdict::Hold, ReasonCode::EnergyBudgetExceeded, Severity::Critical));
    let p6 = fired(a.input_age_ms > limits.max_input_age_ms, outcome(Verdict::Hold, ReasonCode::InputStale, Severity::Critical));
    let p7 = fired(tick_interval_exceeded(inter_tick_ms, limits), outcome(Verdict::Override, ReasonCode::TemporalGuaranteeViolation, Severity::Critical));
    let p8 = fired(deadline_missed(inter_tick_ms, limits), outcome(Verdict::Override, ReasonCode::DeadlineMiss, Severity::Critical));
    let p9 = fired(a.invariant_breached, outcome(Verdict::Shutdown, ReasonCode::InvariantViolation, Severity::Critical));
    let s1 = p0 + p1;
    let s2 = s1 + p2;
    let s3 = s2 + p3;
    let s4 = s3 + p4;
    let s5 = s4 + p5;
    let s6 = s5 + p6;
    let s7 = s6 + p7;
    let s8 = s7 + p8;
    let s9 = s8 + p9;
    lemma_concat_contains(p0, p1, x);
    lemma_concat_contains(s1, p2, x);
    lemma_concat_contains(s2, p3, x);
    lemma_concat_contains(s3, p4, x);
    lemma_concat_contains(s4, p5, x);
    lemma_concat_contains(s5, p6, x);
    lemma_concat_contains(s6, p7, x);
    lemma_concat_contains(s7, p8, x);
    lemma_concat_contains(s8, p9, x);
    lemma_fired_members(!a.state_finite, outcome(Verdict::Shutdown, ReasonCode::StateOutOfBounds, Severity::Critical), x);
    lemma_fired_members(a.frame@ != limits.frame@, outcome(Verdict::Shutdown, ReasonCode::StateInvalidFrame, Severity::Critical), x);
    lemma_fired_members(a.over_speed, outcome(Verdict::Clamp, ReasonCode::StateOutOfBounds, Severity::Warning), x);
    lemma_fired_members(a.outside_position_bounds, outcome(Verdict::Clamp, ReasonCode::StateOutOfBounds, Severity::Warning), x);
    lemma_fired_members(a.rate_limit_exceeded, outcome(Verdict::Clamp, ReasonCode::FlowConstraintViolation, Severity::Warning), x);
    lemma_fired_members(a.below_min_soc, outcome(Verdict::Hold, ReasonCode::EnergyBudgetExceeded, Severity::Critical), x);
    lemma_fired_members(a.input_age_ms > limits.max_input_age_ms, outcome(Verdict::Hold, ReasonCode::InputStale, Severity::Critical), x);
    lemma_fired_members(tick_interval_exceeded(inter_tick_ms, limits), outcome(Verdict::Override, ReasonCode::TemporalGuaranteeViolation, Severity::Critical), x);
    lemma_fired_members(deadline_missed(inter_tick_ms, limits), outcome(Verdict::Override, ReasonCode::DeadlineMiss, Severity::Critical), x);
    lemma_fired_members(a.invariant_breached, outcome(Verdict::Shutdown, ReasonCode::InvariantViolation, Severity::Critical), x);
}

proof fn lemma_concat_contains(s: Seq<CheckOutcome>, t: Seq<CheckOutcome>, x: CheckOutcome)
    ensures
        (s + t).contains(x) <==> (s.contains(x) || t.contains(x)),
{
    let u = s + t;
    if u.contains(x) {
        let idx = choose|idx: int| 0 <= idx < u.len() && u[idx] == x;
        if idx >= s.len() {
            assert(t[idx - s.len()] == x);
        } else {
            assert(s[idx] == x);
        }
    }
    if s.contains(x) {
        let idx = choose|idx: int| 0 <= idx < s.len() && s[idx] == x;
        assert(u[idx] == x);
    }
    if t.contains(x) {
        let idx = choose|idx: int| 0 <= idx < t.len() && t[idx] == x;
        assert(u[s.len() + idx] == x);
    }
}

/// Some fired check demands a Shutdown exactly when a state value is not finite, the frame
/// differs from the expected one, or a safety invariant (altitude floor, bank or attitude
/// limit) is breached.
pub proof fn shutdown_exactly_on_critical_state(a: StateAssessment, inter_tick_ms: Option<u64>, limits: DiscreteLimits)
    ensures
        (exists|i: int| 0 <= i < spec_checks(a, inter_tick_ms, limits).len()
            && (#[trigger] spec_checks(a, inter_tick_ms, limits)[i]).verdict == Verdict::Shutdown)
        <==> (!a.state_finite || a.frame@ != limits.frame@ || a.invariant_breached),
{
    let s = spec_checks(a, inter_tick_ms, limits);
    if exists|i: int| 0 <= i < s.len() && (#[trigger] s[i]).verdict == Verdict::Shutdown {
        let i = choose|i: int| 0 <= i < s.len() && (#[trigger] s[i]).verdict == Verdict::Shutdown;
        assert(s.contains(s[i]));
        lemma_checks_members(a, inter_tick_ms, limits, s[i]);
    }
    if !a.state_finite {
        let o = outcome(Verdict::Shutdown, ReasonCode::StateOutOfBounds, Severity::Critical);
        lemma_checks_members(a, inter_tick_ms, limits, o);
        let i = choose|i: int| 0 <= i < s.len() && s[i] == o;
        assert(s[i].verdict == Verdict::Shutdown);
    } else if a.frame@ != limits.frame@ {
        let o = outcome(Verdict::Shutdown, ReasonCode::StateInvalidFrame, Severity::Critical);
        lemma_checks_members(a, inter_tick_ms, limits, o);
        let i = choose|i: int| 0 <= i < s.len() && s[i] == o;
        assert(s[i].verdict == Verdict::Shutdown);
    } else if a.invariant_breached {
        let o = outcome(Verdict::Shutdown, ReasonCode::InvariantViolation, Severity::Critical);
        lemma_checks_members(a, inter_tick_ms, limits, o);
        let i = choose|i: int| 0 <= i < s.len() && s[i] == o;
        assert(s[i].verdict == Verdict::Shutdown);
    }
}

/// Each check fires on its own condition, compared directly with the limits: an outcome is
/// among the checks exactly when its rule's condition holds. In particular the deadline
/// check fires when the time since the previous tick exceeds `deadline_ms`, and the tick
/// interval check when it exceeds `max_tick_interval_ms`.
pub proof fn each_check_fires_on_its_condition(
    a: StateAssessment,
    inter_tick_ms: Option<u64>,
    limits: DiscreteLimits,
    x: CheckOutcome,
)
    ensures
        spec_checks(a, inter_tick_ms, limits).contains(x) <==> (
            (!a.state_finite && x == (CheckOutcome { verdict: Verdict::Shutdown, reason: ReasonCode::StateOutOfBounds, severity: Severity::Critical }))
            || (a.frame@ != limits.frame@ && x == (CheckOutcome { verdict: Verdict::Shutdown, reason: ReasonCode::StateInvalidFrame, severity: Severity::Critical }))
            || (a.over_speed && x == (CheckOutcome { verdict: Verdict::Clamp, reason: ReasonCode::StateOutOfBounds, severity: Severity::Warning }))
            || (a.outside_position_bounds && x == (CheckOutcome { verdict: Verdict::Clamp, reason: ReasonCode::StateOutOfBounds, severity: Severity::Warning }))
            || (a.rate_limit_exceeded && x == (CheckOutcome { verdict: Verdict::Clamp, reason: ReasonCode::FlowConstraintViolation, severity: Severity::Warning }))
            || (a.below_min_soc && x == (CheckOutcome { verdict: Verdict::Hold, reason: ReasonCode::EnergyBudgetExceeded, severity: Severity::Critical }))
            || (a.input_age_ms > limits.max_input_age_ms && x == (CheckOutcome { verdict: Verdict::Hold, reason: ReasonCode::InputStale, severity: Severity::Critical }))
            || ((inter_tick_ms matches Some(d) && d > limits.max_tick_interval_ms)
                && x == (CheckOutcome { verdict: Verdict::Override, reason: ReasonCode::TemporalGuaranteeViolation, severity: Severity::Critical }))
            || ((inter_tick_ms matches Some(d) && d > limits.deadline_ms)
                && x == (CheckOutcome { verdict: Verdict::Override, reason: ReasonCode::DeadlineMiss, severity: Severity::Critical }))
            || (a.invariant_breached && x == (CheckOutcome { verdict: Verdict::Shutdown, reason: ReasonCode::InvariantViolation, severity: Severity::Critical }))
        ),
{
    lemma_checks_members(a, inter_tick_ms, limits, x);
}

/// A tick that comes `d` milliseconds after the previous one gets the critical
/// deadline-miss override exactly when `d` exceeds the deadline, and the critical temporal
/// override exactly when `d` exceeds the longest tick interval. The first tick gets neither.
pub proof fn timing_checks_follow_the_time_limits(a: StateAssessment, inter_tick_ms: Option<u64>, limits: DiscreteLimits)
    ensures
        spec_checks(a, inter_tick_ms, limits).contains(
            CheckOutcome { verdict: Verdict::Override, reason: ReasonCode::DeadlineMiss, severity: Severity::Critical })
            <==> (inter_tick_ms matches Some(d) && d > limits.deadline_ms),
        spec_checks(a, inter_tick_ms, limits).contains(
            CheckOutcome { verdict: Verdict::Override, reason: ReasonCode::TemporalGuaranteeViolation, severity: Severity::Critical })
            <==> (inter_tick_ms matches Some(d) && d > limits.max_tick_interval_ms),
        forall|i: int| 0 <= i < spec_checks(a, inter_tick_ms, limits).len() ==>
            ((#[trigger] spec_checks(a, inter_tick_ms, limits)[i]).reason == ReasonCode::DeadlineMiss
                ==> (inter_tick_ms matches Some(d) && d > limits.deadline_ms)),
{
    let dl = CheckOutcome { verdict: Verdict::Override, reason: ReasonCode::DeadlineMiss, severity: Severity::Critical };
    let tg = CheckOutcome { verdict: Verdict::Override, reason: ReasonCode::TemporalGuaranteeViolation, severity: Severity::Critical };
    lemma_checks_members(a, inter_tick_ms, limits, dl);
    lemma_checks_members(a, inter_tick_ms, limits, tg);
    let s = spec_checks(a, inter_tick_ms, limits);
    assert forall|i: int| 0 <= i < s.len() && (#[trigger] s[i]).reason == ReasonCode::DeadlineMiss
        implies (inter_tick_ms matches Some(d) && d > limits.deadline_ms) by {
        assert(s.contains(s[i]));
        lemma_checks_members(a, inter_tick_ms, limits, s[i]);
    }
}

/// No check fires exactly when every measurement is within its limit.
pub proof fn nominal_input_fires_nothing(a: StateAssessment, inter_tick_ms: Option<u64>, limits: DiscreteLimits)
    ensures
        spec_checks(a, inter_tick_ms, limits).len() == 0 <==> (
            a.state_finite && a.frame@ == limits.frame@ && !a.over_speed && !a.outside_position_bounds
            && !a.rate_limit_exceeded && !a.below_min_soc && a.input_age_ms <= limits.max_input_age_ms
            && !(inter_tick_ms matches Some(d) && d > limits.max_tick_interval_ms)
            && !(inter_tick_ms matches Some(d) && d > limits.deadline_ms)
            && !a.invariant_breached
        ),
{
}

} // verus!

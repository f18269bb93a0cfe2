//! The latching authority interlock in front of the kernel.
//!
//! The heartbeat-rate threshold is compared by the caller; the interlock decides on the result.
use vstd::prelude::*;

use crate::text::str_eq;

verus! {

/// The interlock's answer to one request for authority.
pub struct InterlockDecision {
    pub allowed: bool,
    pub reason: String,
    pub latched: bool,
}

/// The latching interlock: once latched, it denies every request until the latch is reset.
pub struct InterlockGate {
    pub latched: bool,
}

/// One request to the interlock, as plain values.
pub struct GateInput {
    pub authority: Seq<char>,
    pub heartbeat_below_minimum: bool,
    pub within_safety_envelope: bool,
    pub interlock_enabled: bool,
}

/// The interlock's answer to one request and whether it is latched afterwards.
pub struct GateStep {
    pub allowed: bool,
    pub reason: Seq<char>,
    pub latched_flag: bool,
    pub latched_after: bool,
}

pub open spec fn kernel_authority() -> Seq<char> {
    "safety_kernel"@
}

/// The interlock's decision on `input` when its latch is `latched`.
pub open spec fn gate_step(latched: bool, input: GateInput) -> GateStep {
    if latched {
        GateStep { allowed: false, reason: "latched_shutdown"@, latched_flag: true, latched_after: true }
    } else if input.authority != kernel_authority() {
        GateStep { allowed: false, reason: "authority_exclusivity_violation"@, latched_flag: true, latched_after: true }
    } else if !input.interlock_enabled {
        GateStep { allowed: false, reason: "interlock_disabled"@, latched_flag: true, latched_after: true }
    } else if input.heartbeat_below_minimum {
        GateStep { allowed: false, reason: "heartbeat_below_threshold"@, latched_flag: true, latched_after: true }
    } else if !input.within_safety_envelope {
        GateStep { allowed: false, reason: "outside_safety_envelope"@, latched_flag: false, latched_after: false }
    } else {
        GateStep { allowed: true, reason: "authorized"@, latched_flag: false, latched_after: false }
    }
}

/// The interlock's answers to a sequence of requests, starting from latch state `latched`.
pub open spec fn gate_run(latched: bool, inputs: Seq<GateInput>) -> Seq<GateStep>
    decreases inputs.len(),
{
    if inputs.len() == 0 {
        Seq::empty()
    } else {
        let first = gate_step(latched, inputs[0]);
        seq![first] + gate_run(first.latched_after, inputs.drop_first())
    }
}

impl InterlockGate {
    /// A interlock that is not latched.
    pub fn new() -> (gate: Self)
        ensures
            !gate.latched,
    {
        InterlockGate { latched: false }
    }

    /// Clears the latch.
    pub fn reset_latch(&mut self)
        ensures
            !final(self).latched,
    {
        self.latched = false;
    }

    /// Decides one request for authority. `heartbeat_below_minimum` tells whether the
    /// measured heartbeat rate is below the interlock's minimum rate.
    pub fn evaluate(
        &mut self,
        authority_source: &str,
        heartbeat_below_minimum: bool,
        within_safety_envelope: bool,
        interlock_enabled: bool,
    ) -> (decision: InterlockDecision)
        ensures
            ({
                let step = gate_step(
                    old(self).latched,
                    GateInput {
                        authority: authority_source@,
                        heartbeat_below_minimum,
                        within_safety_envelope,
                        interlock_enabled,
                    },
                );
                &&& decision.allowed == step.allowed
                &&& decision.reason@ == step.reason
                &&& decision.latched == step.latched_flag
                &&& final(self).latched == step.latched_after
            }),
            decision.allowed ==> !old(self).latched && authority_source@ == kernel_authority()
                && interlock_enabled && !heartbeat_below_minimum && within_safety_envelope,
    {
        if self.latched {
            return InterlockDecision { allowed: false, reason: "latched_shutdown".to_owned(), latched: true };
        }
        if !str_eq(authority_source, "safety_kernel") {
            self.latched = true;
            return InterlockDecision {
                allowed: false,
                reason: "authority_exclusivity_violation".to_owned(),
                latched: true,
            };
        }
        if !interlock_enabled {
            self.latched = true;
            return InterlockDecision { allowed: false, reason: "interlock_disabled".to_owned(), latched: true };
        }
        if heartbeat_below_minimum {
            self.latched = true;
            return InterlockDecision {
                allowed: false,
                reason: "heartbeat_below_threshold".to_owned(),
                latched: true,
            };
        }
        if !within_safety_envelope {
            return InterlockDecision {
                allowed: false,
                reason: "outside_safety_envelope".to_owned(),
                latched: false,
            };
        }
        InterlockDecision { allowed: true, reason: "authorized".to_owned(), latched: false }
    }
}

/// Once the interlock is latched, every later request is denied with `latched_shutdown`, whatever
/// it asks, until the latch is reset.
pub proof fn latch_is_sticky(inputs: Seq<GateInput>)
    ensures
        forall|i: int| 0 <= i < inputs.len() ==> {
            &&& !(#[trigger] gate_run(true, inputs)[i]).allowed
            &&& gate_run(true, inputs)[i].reason == "latched_shutdown"@
            &&& gate_run(true, inputs)[i].latched_after
            &&& gate_run(true, inputs)[i].latched_flag
        },
        gate_run(true, inputs).len() == inputs.len(),
    decreases inputs.len(),
{
    if inputs.len() > 0 {
        latch_is_sticky(inputs.drop_first());
        let run = gate_run(true, inputs);
        let rest = gate_run(true, inputs.drop_first());
        assert(run == seq![gate_step(true, inputs[0])] + rest);
        assert forall|i: int| 0 <= i < inputs.len() implies {
            &&& !(#[trigger] gate_run(true, inputs)[i]).allowed
            &&& gate_run(true, inputs)[i].reason == "latched_shutdown"@
            &&& gate_run(true, inputs)[i].latched_after
            &&& gate_run(true, inputs)[i].latched_flag
        } by {
            if i > 0 {
                assert(run[i] == rest[i - 1]);
            }
        }
    }
}

/// How one request is decided, from the latch state before it: it is allowed exactly when
/// the interlock is unlatched, the request comes from the safety kernel, the interlock is
/// enabled, the heartbeat is at or above the minimum and the state is inside the safety
/// envelope. The interlock is latched afterwards exactly when it was latched before, or the
/// request came from another authority, found the interlock disabled, or reported a
/// heartbeat below the minimum; the answer reports that latch state.
pub proof fn decision_follows_the_request(latched: bool, input: GateInput)
    ensures
        gate_step(latched, input).allowed <==> (!latched && input.authority == "safety_kernel"@
            && input.interlock_enabled && !input.heartbeat_below_minimum && input.within_safety_envelope),
        gate_step(latched, input).latched_after <==> (latched || input.authority != "safety_kernel"@
            || !input.interlock_enabled || input.heartbeat_below_minimum),
        gate_step(latched, input).latched_flag == gate_step(latched, input).latched_after,
        latched ==> gate_step(latched, input).reason == "latched_shutdown"@,
        (!latched && input.authority == "safety_kernel"@ && input.interlock_enabled && input.heartbeat_below_minimum)
            ==> gate_step(latched, input).reason == "heartbeat_below_threshold"@,
        (!latched && input.authority == "safety_kernel"@ && !input.interlock_enabled)
            ==> gate_step(latched, input).reason == "interlock_disabled"@,
        (!latched && input.authority != "safety_kernel"@)
            ==> gate_step(latched, input).reason == "authority_exclusivity_violation"@,
        (!latched && input.authority == "safety_kernel"@ && input.interlock_enabled && !input.heartbeat_below_minimum
            && !input.within_safety_envelope) ==> gate_step(latched, input).reason == "outside_safety_envelope"@,
        gate_step(latched, input).allowed ==> gate_step(latched, input).reason == "authorized"@,
{
}

/// A request that latches an unlatched interlock (from another authority, with the
/// interlock disabled, or with the heartbeat below the minimum) is denied, and every
/// request after it is denied with `latched_shutdown`, until the latch is reset.
pub proof fn latching_fault_denies_every_later_request(first: GateInput, later: Seq<GateInput>)
    requires
        first.authority != "safety_kernel"@ || !first.interlock_enabled || first.heartbeat_below_minimum,
    ensures
        !gate_run(false, seq![first] + later)[0].allowed,
        gate_run(false, seq![first] + later)[0].latched_flag,
        gate_run(false, seq![first] + later).len() == later.len() + 1,
        forall|i: int| 1 <= i <= later.len() ==> {
            &&& !(#[trigger] gate_run(false, seq![first] + later)[i]).allowed
            &&& gate_run(false, seq![first] + later)[i].reason == "latched_shutdown"@
            &&& gate_run(false, seq![first] + later)[i].latched_flag
        },
{
    let all = seq![first] + later;
    assert(all[0] == first);
    assert(all.drop_first() =~= later);
    latch_is_sticky(later);
    let run = gate_run(false, all);
    assert(gate_step(false, first).latched_after);
    assert(run == seq![gate_step(false, first)] + gate_run(true, later));
    assert forall|i: int| 1 <= i <= later.len() implies {
        &&& !(#[trigger] gate_run(false, seq![first] + later)[i]).allowed
        &&& gate_run(false, seq![first] + later)[i].reason == "latched_shutdown"@
        &&& gate_run(false, seq![first] + later)[i].latched_flag
    } by {
        assert(run[i] == gate_run(true, later)[i - 1]);
    }
}

/// A request that latches an unlatched interlock (from another authority, with the
/// A request from any authority other than the safety kernel, with the interlock unlatched, is
/// denied and latches the interlock, so every request after it is denied as well.
pub proof fn authority_violation_latches(first: GateInput, later: Seq<GateInput>)
    requires
        first.authority != kernel_authority(),
    ensures
        !gate_step(false, first).allowed,
        gate_step(false, first).latched_after,
        forall|i: int| 0 <= i < later.len() ==> !(#[trigger] gate_run(false, seq![first] + later)[i + 1]).allowed,
{
    let all = seq![first] + later;
    assert(all[0] == first);
    assert(all.drop_first() =~= later);
    latch_is_sticky(later);
    assert forall|i: int| 0 <= i < later.len() implies !(#[trigger] gate_run(false, seq![first] + later)[i + 1]).allowed by {
        assert(gate_run(false, all) == seq![gate_step(false, first)] + gate_run(true, later));
        assert(gate_run(false, all)[i + 1] == gate_run(true, later)[i]);
    }
}

/// After `reset_latch`, a request from the safety kernel with the interlock enabled, a
/// sufficient heartbeat and the state inside the safety envelope is authorized.
pub proof fn reset_restores_authority(input: GateInput)
    requires
        input.authority == kernel_authority(),
        input.interlock_enabled,
        !input.heartbeat_below_minimum,
        input.within_safety_envelope,
    ensures
        gate_step(false, input).allowed,
        gate_step(false, input).reason == "authorized"@,
{
}

} // verus!

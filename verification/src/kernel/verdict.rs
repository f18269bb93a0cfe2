//! Verdicts, reason codes and check outcomes of the safety kernel.
use vstd::prelude::*;
use vstd::string::*;

verus! {

/// The action the kernel takes on a tick, from least to most restrictive.
#[derive(Debug, Clone, Copy, PartialEq, Eq, Structural)]
pub enum Verdict {
    Allow,
    Clamp,
    Hold,
    Override,
    Shutdown,
}

/// Why a check fired.
#[derive(Debug, Clone, Copy, PartialEq, Eq, Structural)]
pub enum ReasonCode {
    StateOutOfBounds,
    StateInvalidFrame,
    FlowConstraintViolation,
    EnergyBudgetExceeded,
    InputStale,
    TemporalGuaranteeViolation,
    DeadlineMiss,
    InvariantViolation,
}

/// How serious a fired check is.
#[derive(Debug, Clone, Copy, PartialEq, Eq, Structural)]
pub enum Severity {
    Warning,
    Critical,
}

/// One fired check: the verdict it demands, why, and how serious it is.
#[derive(Debug, Clone, Copy, PartialEq, Eq, Structural)]
pub struct CheckOutcome {
    pub verdict: Verdict,
    pub reason: ReasonCode,
    pub severity: Severity,
}

pub open spec fn spec_precedence(v: Verdict) -> u8 {
    match v {
        Verdict::Allow => 0,
        Verdict::Clamp => 1,
        Verdict::Hold => 2,
        Verdict::Override => 3,
        Verdict::Shutdown => 4,
    }
}

/// The `Debug` name of a verdict, as the logs and replay reports write it.
pub open spec fn verdict_name(v: Verdict) -> Seq<char> {
    match v {
        Verdict::Allow => seq!['A', 'l', 'l', 'o', 'w'],
        Verdict::Clamp => seq!['C', 'l', 'a', 'm', 'p'],
        Verdict::Hold => seq!['H', 'o', 'l', 'd'],
        Verdict::Override => seq!['O', 'v', 'e', 'r', 'r', 'i', 'd', 'e'],
        Verdict::Shutdown => seq!['S', 'h', 'u', 't', 'd', 'o', 'w', 'n'],
    }
}

impl Verdict {
    /// Rank of the verdict in the arbitration order: a higher rank is more restrictive.
    pub fn precedence(self) -> (r: u8)
        ensures
            r == spec_precedence(self),
    {
        match self {
            Verdict::Allow => 0,
            Verdict::Clamp => 1,
            Verdict::Hold => 2,
            Verdict::Override => 3,
            Verdict::Shutdown => 4,
        }
    }

    /// The variant's name, as `{:?}` prints it.
    pub fn debug_name(self) -> (r: &'static str)
        ensures
            r@ == verdict_name(self),
    {
        match self {
            Verdict::Allow => {
                proof { reveal_strlit("Allow"); }
                "Allow"
            },
            Verdict::Clamp => {
                proof { reveal_strlit("Clamp"); }
                "Clamp"
            },
            Verdict::Hold => {
                proof { reveal_strlit("Hold"); }
                "Hold"
            },
            Verdict::Override => {
                proof { reveal_strlit("Override"); }
                "Override"
            },
            Verdict::Shutdown => {
                proof { reveal_strlit("Shutdown"); }
                "Shutdown"
            },
        }
    }
}

/// Precedence strictly increases with safety severity, Allow < Clamp < Hold < Override < Shutdown,
/// and no two verdicts share a rank.
pub proof fn precedence_is_monotonic_with_safety_severity(a: Verdict, b: Verdict)
    ensures
        spec_precedence(Verdict::Allow) < spec_precedence(Verdict::Clamp),
        spec_precedence(Verdict::Clamp) < spec_precedence(Verdict::Hold),
        spec_precedence(Verdict::Hold) < spec_precedence(Verdict::Override),
        spec_precedence(Verdict::Override) < spec_precedence(Verdict::Shutdown),
        spec_precedence(a) == spec_precedence(b) <==> a == b,
        spec_precedence(a) <= 4,
{
}

pub open spec fn reason_name(r: ReasonCode) -> Seq<char> {
    match r {
        ReasonCode::StateOutOfBounds => seq!['S','t','a','t','e','O','u','t','O','f','B','o','u','n','d','s'],
        ReasonCode::StateInvalidFrame => seq!['S','t','a','t','e','I','n','v','a','l','i','d','F','r','a','m','e'],
        ReasonCode::FlowConstraintViolation => seq!['F','l','o','w','C','o','n','s','t','r','a','i','n','t','V','i','o','l','a','t','i','o','n'],
        ReasonCode::EnergyBudgetExceeded => seq!['E','n','e','r','g','y','B','u','d','g','e','t','E','x','c','e','e','d','e','d'],
        ReasonCode::InputStale => seq!['I','n','p','u','t','S','t','a','l','e'],
        ReasonCode::TemporalGuaranteeViolation => seq!['T','e','m','p','o','r','a','l','G','u','a','r','a','n','t','e','e','V','i','o','l','a','t','i','o','n'],
        ReasonCode::DeadlineMiss => seq!['D','e','a','d','l','i','n','e','M','i','s','s'],
        ReasonCode::InvariantViolation => seq!['I','n','v','a','r','i','a','n','t','V','i','o','l','a','t','i','o','n'],
    }
}

impl ReasonCode {
    /// The variant's name, as `{:?}` prints it.
    pub fn debug_name(self) -> (r: &'static str)
        ensures
            r@ == reason_name(self),
    {
        match self {
            ReasonCode::StateOutOfBounds => {
                proof { reveal_strlit("StateOutOfBounds"); }
                "StateOutOfBounds"
            },
            ReasonCode::StateInvalidFrame => {
                proof { reveal_strlit("StateInvalidFrame"); }
                "StateInvalidFrame"
            },
            ReasonCode::FlowConstraintViolation => {
                proof { reveal_strlit("FlowConstraintViolation"); }
                "FlowConstraintViolation"
            },
            ReasonCode::EnergyBudgetExceeded => {
                proof { reveal_strlit("EnergyBudgetExceeded"); }
                "EnergyBudgetExceeded"
            },
            ReasonCode::InputStale => {
                proof { reveal_strlit("InputStale"); }
                "InputStale"
            },
            ReasonCode::TemporalGuaranteeViolation => {
                proof { reveal_strlit("TemporalGuaranteeViolation"); }
                "TemporalGuaranteeViolation"
            },
            ReasonCode::DeadlineMiss => {
                proof { reveal_strlit("DeadlineMiss"); }
                "DeadlineMiss"
            },
            ReasonCode::InvariantViolation => {
                proof { reveal_strlit("InvariantViolation"); }
                "InvariantViolation"
            },
        }
    }
}

/// `{:?}` of a list of reason codes: `[A, B, C]`.
pub open spec fn reasons_debug(rs: Seq<ReasonCode>) -> Seq<char> {
    seq!['['] + reasons_joined(rs) + seq![']']
}

/// The reason names separated by `", "`.
pub open spec fn reasons_joined(rs: Seq<ReasonCode>) -> Seq<char>
    decreases rs.len(),
{
    if rs.len() == 0 {
        Seq::empty()
    } else if rs.len() == 1 {
        reason_name(rs[0])
    } else {
        reasons_joined(rs.drop_last()) + seq![',', ' '] + reason_name(rs.last())
    }
}

/// Renders reason codes the way `{:?}` renders a `Vec<ReasonCode>`.
pub fn reasons_debug_string(rs: &Vec<ReasonCode>) -> (r: String)
    ensures
        r@ == reasons_debug(rs@),
{
    let mut out = String::new();
    proof {
        reveal_strlit("[");
        reveal_strlit("]");
        reveal_strlit(", ");
    }
    out.append("[");
    let mut i: usize = 0;
    while i < rs.len()
        invariant
            i <= rs.len(),
            out@ == seq!['['] + reasons_joined(rs@.subrange(0, i as int)),
        decreases rs.len() - i,
    {
        let ghost before = out@;
        let name = rs[i].debug_name();
        if i > 0 {
            proof {
                reveal_strlit(", ");
            }
            out.append(", ");
            assert(out@ =~= before + seq![',', ' ']);
        } else {
            assert(out@ == before);
        }
        let ghost mid = out@;
        out.append(name);
        assert(out@ == mid + reason_name(rs@[i as int]));
        proof {
            let pre = rs@.subrange(0, i as int);
            let cur = rs@.subrange(0, i + 1);
            assert(cur.drop_last() =~= pre);
            assert(cur.last() == rs@[i as int]);
            if i == 0 {
                assert(pre.len() == 0);
                assert(reasons_joined(pre) == Seq::<char>::empty());
                assert(reasons_joined(cur) == reason_name(cur[0]));
                assert(out@ =~= seq!['['] + reasons_joined(cur));
            } else {
                assert(reasons_joined(cur) == reasons_joined(pre) + seq![',', ' '] + reason_name(
                    rs@[i as int],
                ));
                assert(out@ =~= seq!['['] + reasons_joined(cur));
            }
        }
        i = i + 1;
    }
    proof {
        reveal_strlit("]");
    }
    out.append("]");
    assert(rs@.subrange(0, rs.len() as int) =~= rs@);
    assert(out@ =~= reasons_debug(rs@));
    out
}

} // verus!

//! Replaying a recorded kernel trace: reading the replayer's arguments, and finding where
//! a replay drifts from the verdicts, reasons and hash-chain tips the trace recorded.
use vstd::prelude::*;
use vstd::string::*;

use crate::text::{concat_str, str_eq, string_eq_str, strings_view};

verus! {

/// The replayer's settings.
pub struct TraceReplayArgs {
    pub repo_root: String,
    pub profile: String,
    pub trace: String,
    pub output: String,
}

/// Why the replayer's arguments could not be read.
pub enum TraceArgsError {
    /// A flag that takes a value came last.
    MissingValue,
    /// An argument the replayer does not know.
    UnknownArgument(String),
    /// The profile, trace or output was not given.
    Usage,
}

/// The settings as plain values.
pub struct TraceArgsModel {
    pub repo_root: Seq<char>,
    pub profile: Seq<char>,
    pub trace: Seq<char>,
    pub output: Seq<char>,
}

/// The outcome of reading the arguments, as plain values.
pub enum TraceArgsOutcome {
    Parsed(TraceArgsModel),
    MissingValue,
    UnknownArgument(Seq<char>),
}

/// Reads the arguments left to right on top of `acc`: `--repo-root`, `--profile`,
/// `--trace` and `--output` each take the next argument as value.
pub open spec fn read_trace_args(args: Seq<Seq<char>>, acc: TraceArgsModel) -> TraceArgsOutcome
    decreases args.len(),
{
    if args.len() == 0 {
        TraceArgsOutcome::Parsed(acc)
    } else {
        let flag = args[0];
        let rest = args.drop_first();
        if flag == "--repo-root"@ || flag == "--profile"@ || flag == "--trace"@ || flag == "--output"@ {
            if rest.len() == 0 {
                TraceArgsOutcome::MissingValue
            } else {
                let value = rest[0];
                let next = if flag == "--repo-root"@ {
                    TraceArgsModel { repo_root: value, ..acc }
                } else if flag == "--profile"@ {
                    TraceArgsModel { profile: value, ..acc }
                } else if flag == "--trace"@ {
                    TraceArgsModel { trace: value, ..acc }
                } else {
                    TraceArgsModel { output: value, ..acc }
                };
                read_trace_args(rest.drop_first(), next)
            }
        } else {
            TraceArgsOutcome::UnknownArgument(flag)
        }
    }
}

/// The settings before any argument: repository `.`, nothing else given.
pub open spec fn initial_trace_args() -> TraceArgsModel {
    TraceArgsModel { repo_root: "."@, profile: Seq::empty(), trace: Seq::empty(), output: Seq::empty() }
}

pub open spec fn trace_args_model(a: TraceReplayArgs) -> TraceArgsModel {
    TraceArgsModel { repo_root: a.repo_root@, profile: a.profile@, trace: a.trace@, output: a.output@ }
}

/// What reading a command line gives: the settings when the profile, trace and output are
/// all given, else `Usage`; `MissingValue` or `UnknownArgument` as soon as one is met.
pub open spec fn spec_parse_trace_args(args: Seq<Seq<char>>) -> Result<TraceArgsModel, TraceArgsOutcome> {
    match read_trace_args(args, initial_trace_args()) {
        TraceArgsOutcome::Parsed(m) => if m.profile.len() == 0 || m.trace.len() == 0 || m.output.len() == 0 {
            Err(TraceArgsOutcome::Parsed(m))
        } else {
            Ok(m)
        },
        other => Err(other),
    }
}

/// Reads the replayer's arguments (the program name excluded).
pub fn parse_trace_args(args: &Vec<String>) -> (r: Result<TraceReplayArgs, TraceArgsError>)
    ensures
        ({
            let all = strings_view(args@);
            match read_trace_args(all, initial_trace_args()) {
                TraceArgsOutcome::Parsed(m) => if m.profile.len() == 0 || m.trace.len() == 0 || m.output.len() == 0 {
                    r matches Err(TraceArgsError::Usage)
                } else {
                    r matches Ok(a) && trace_args_model(a) == m
                },
                TraceArgsOutcome::MissingValue => r matches Err(TraceArgsError::MissingValue),
                TraceArgsOutcome::UnknownArgument(f) => r matches Err(TraceArgsError::UnknownArgument(g)) && g@ == f,
            }
        }),
{
    let ghost all = strings_view(args@);
    proof {
        reveal_strlit(".");
    }
    let mut acc = TraceReplayArgs {
        repo_root: ".".to_string(),
        profile: String::new(),
        trace: String::new(),
        output: String::new(),
    };
    assert(trace_args_model(acc) =~= initial_trace_args());
    let mut i: usize = 0;
    assert(all.subrange(0, all.len() as int) =~= all);
    while i < args.len()
        invariant
            i <= args.len(),
            all == strings_view(args@),
            read_trace_args(all, initial_trace_args()) == read_trace_args(
                all.subrange(i as int, all.len() as int), trace_args_model(acc)),
        decreases args.len() - i,
    {
        let ghost rest = all.subrange(i as int, all.len() as int);
        assert(rest[0] == args@[i as int]@);
        assert(rest.drop_first() =~= all.subrange(i + 1, all.len() as int));
        let flag = args[i].as_str();
        let takes_value = str_eq(flag, "--repo-root") || str_eq(flag, "--profile") || str_eq(flag, "--trace")
            || str_eq(flag, "--output");
        if !takes_value {
            return Err(TraceArgsError::UnknownArgument(flag.to_string()));
        }
        if i + 1 >= args.len() {
            return Err(TraceArgsError::MissingValue);
        }
        let value = args[i + 1].as_str();
        assert(rest.drop_first()[0] == args@[i + 1]@);
        assert(rest.drop_first().drop_first() =~= all.subrange(i + 2, all.len() as int));
        if str_eq(flag, "--repo-root") {
            acc.repo_root = value.to_string();
        } else if str_eq(flag, "--profile") {
            acc.profile = value.to_string();
        } else if str_eq(flag, "--trace") {
            acc.trace = value.to_string();
        } else {
            acc.output = value.to_string();
        }
        i = i + 2;
    }
    assert(all.subrange(i as int, all.len() as int) =~= Seq::<Seq<char>>::empty());
    if acc.profile.unicode_len() == 0 || acc.trace.unicode_len() == 0 || acc.output.unicode_len() == 0 {
        return Err(TraceArgsError::Usage);
    }
    Ok(acc)
}

pub open spec fn trace_args_error_message(e: TraceArgsError) -> Seq<char> {
    match e {
        TraceArgsError::MissingValue => "missing value"@,
        TraceArgsError::UnknownArgument(a) => "unknown argument "@ + a@,
        TraceArgsError::Usage => "usage: --profile <p> --trace <path> --output <path> [--repo-root <path>]"@,
    }
}

impl TraceArgsError {
    /// The error's message.
    pub fn message(&self) -> (r: String)
        ensures
            r@ == trace_args_error_message(*self),
    {
        match self {
            TraceArgsError::MissingValue => "missing value".to_string(),
            TraceArgsError::UnknownArgument(a) => concat_str("unknown argument ", a.as_str()),
            TraceArgsError::Usage => "usage: --profile <p> --trace <path> --output <path> [--repo-root <path>]".to_string(),
        }
    }
}

/// A trace recorded for a different profile than the one asked for.
pub fn check_trace_profile(trace_profile: &str, profile: &str) -> (r: Result<(), String>)
    ensures
        trace_profile@ == profile@ ==> r is Ok,
        trace_profile@ != profile@ ==> (r matches Err(m)
            && m@ == "trace profile mismatch: trace="@ + trace_profile@ + ", arg="@ + profile@),
{
    if str_eq(trace_profile, profile) {
        Ok(())
    } else {
        let a = concat_str("trace profile mismatch: trace=", trace_profile);
        let b = concat_str(a.as_str(), ", arg=");
        Err(concat_str(b.as_str(), profile))
    }
}

/// What the trace recorded for one tick.
pub struct TraceTick {
    pub tick: u64,
    pub expected_verdict: String,
    pub expected_reasons: Vec<String>,
    pub expected_tip_hash: String,
}

/// What the replay produced for one tick: the verdict and reasons by their names, and the
/// tip of the event log's hash chain.
pub struct TickOutcome {
    pub verdict: String,
    pub reasons: Vec<String>,
    pub tip_hash: String,
}

/// A difference between the trace and the replay.
pub struct Drift {
    pub tick: u64,
    pub expected_verdict: String,
    pub actual_verdict: String,
    pub expected_reasons: Vec<String>,
    pub actual_reasons: Vec<String>,
    pub expected_tip_hash: String,
    pub actual_tip_hash: String,
}

/// Whether a tick's replay differs from its record in verdict, reasons or tip.
pub open spec fn tick_drifted(t: TraceTick, o: TickOutcome) -> bool {
    t.expected_verdict@ != o.verdict@ || strings_view(t.expected_reasons@) != strings_view(o.reasons@)
        || t.expected_tip_hash@ != o.tip_hash@
}

/// Whether `d` records the drift of tick `t` replayed as `o`.
pub open spec fn drift_of_tick(d: Drift, t: TraceTick, o: TickOutcome) -> bool {
    &&& d.tick == t.tick
    &&& d.expected_verdict@ == t.expected_verdict@
    &&& d.actual_verdict@ == o.verdict@
    &&& strings_view(d.expected_reasons@) == strings_view(t.expected_reasons@)
    &&& strings_view(d.actual_reasons@) == strings_view(o.reasons@)
    &&& d.expected_tip_hash@ == t.expected_tip_hash@
    &&& d.actual_tip_hash@ == o.tip_hash@
}

/// The positions, in order, of the ticks among the first `n` that drifted.
pub open spec fn drifted_positions(ticks: Seq<TraceTick>, outcomes: Seq<TickOutcome>, n: nat) -> Seq<int>
    decreases n,
{
    if n == 0 {
        Seq::empty()
    } else {
        let p = drifted_positions(ticks, outcomes, (n - 1) as nat);
        if tick_drifted(ticks[n - 1], outcomes[n - 1]) {
            p.push(n - 1)
        } else {
            p
        }
    }
}

/// Whether `d` records a final tip that differs from the recorded one, at the last tick.
pub open spec fn final_drift(d: Drift, ticks: Seq<TraceTick>, expected_final: Seq<char>, actual_final: Seq<char>) -> bool {
    &&& d.tick == (if ticks.len() == 0 { 0 } else { ticks.last().tick })
    &&& d.expected_verdict@ == "final-tip-hash"@
    &&& d.actual_verdict@ == "final-tip-hash"@
    &&& d.expected_reasons@.len() == 0
    &&& d.actual_reasons@.len() == 0
    &&& d.expected_tip_hash@ == expected_final
    &&& d.actual_tip_hash@ == actual_final
}

/// No tick among the first `n` drifted exactly when each of them was reproduced.
pub proof fn no_drift_iff_all_reproduced(ticks: Seq<TraceTick>, outcomes: Seq<TickOutcome>, n: nat)
    requires
        n <= ticks.len(),
        n <= outcomes.len(),
    ensures
        drifted_positions(ticks, outcomes, n).len() == 0 <==> (forall|i: int| 0 <= i < n ==> !tick_drifted(
            #[trigger] ticks[i], outcomes[i])),
    decreases n,
{
    if n > 0 {
        no_drift_iff_all_reproduced(ticks, outcomes, (n - 1) as nat);
        let p = drifted_positions(ticks, outcomes, (n - 1) as nat);
        if tick_drifted(ticks[n - 1], outcomes[n - 1]) {
            assert(drifted_positions(ticks, outcomes, n).len() == p.len() + 1);
        }
    }
}

/// The report of a replay.
pub struct TraceReplayReport {
    pub mission_id: String,
    pub profile: String,
    pub schema_version: String,
    pub result: String,
    pub drift_count: usize,
    pub drift: Vec<Drift>,
}

fn strings_equal(a: &Vec<String>, b: &Vec<String>) -> (r: bool)
    ensures
        r == (strings_view(a@) == strings_view(b@)),
{
    if a.len() != b.len() {
        assert(strings_view(a@).len() != strings_view(b@).len());
        return false;
    }
    let mut i: usize = 0;
    while i < a.len()
        invariant
            a@.len() == b@.len(),
            i <= a@.len(),
            forall|j: int| 0 <= j < i ==> a@[j]@ == b@[j]@,
        decreases a@.len() - i,
    {
        if !string_eq_str(&a[i], b[i].as_str()) {
            assert(strings_view(a@)[i as int] != strings_view(b@)[i as int]);
            return false;
        }
        i = i + 1;
    }
    assert(strings_view(a@) =~= strings_view(b@));
    true
}

fn clone_strings(v: &Vec<String>) -> (r: Vec<String>)
    ensures
        strings_view(r@) == strings_view(v@),
{
    let mut out: Vec<String> = Vec::new();
    let mut i: usize = 0;
    while i < v.len()
        invariant
            i <= v@.len(),
            strings_view(out@) == strings_view(v@.subrange(0, i as int)),
        decreases v@.len() - i,
    {
        let ghost before = out@;
        let s = v[i].clone();
        assert(s@ == v@[i as int]@);
        out.push(s);
        assert(v@.subrange(0, i + 1) =~= v@.subrange(0, i as int).push(v@[i as int]));
        assert(strings_view(out@) =~= strings_view(before).push(s@));
        assert(strings_view(out@) =~= strings_view(v@.subrange(0, i + 1)));
        i = i + 1;
    }
    assert(v@.subrange(0, v@.len() as int) =~= v@);
    out
}

/// Compares a replay with its trace: one drift per tick whose verdict, reasons or tip
/// differ, in tick order, then one for the final tip when it differs from the recorded one;
/// the result is `PASS` when there is no drift and `FAIL` otherwise.
pub fn assess_trace(
    mission_id: String,
    profile: String,
    schema_version: String,
    ticks: &Vec<TraceTick>,
    outcomes: &Vec<TickOutcome>,
    expected_final_tip: &str,
    actual_final_tip: &str,
) -> (r: TraceReplayReport)
    requires
        ticks@.len() == outcomes@.len(),
    ensures
        ({
            let pos = drifted_positions(ticks@, outcomes@, ticks@.len());
            let final_differs = expected_final_tip@ != actual_final_tip@;
            &&& r.drift@.len() == pos.len() + (if final_differs { 1int } else { 0int })
            &&& forall|k: int| 0 <= k < pos.len() ==> drift_of_tick(#[trigger] r.drift@[k], ticks@[pos[k]], outcomes@[pos[k]])
            &&& final_differs ==> final_drift(r.drift@[pos.len() as int], ticks@, expected_final_tip@, actual_final_tip@)
        }),
        r.drift_count == r.drift@.len(),
        r.result@ == (if r.drift@.len() == 0 { "PASS"@ } else { "FAIL"@ }),
        (r.drift@.len() == 0) <==> ((forall|i: int| 0 <= i < ticks@.len() ==> !tick_drifted(#[trigger] ticks@[i],
            outcomes@[i])) && expected_final_tip@ == actual_final_tip@),
        r.mission_id == mission_id,
        r.profile == profile,
        r.schema_version == schema_version,
{
    let mut drift: Vec<Drift> = Vec::new();
    let mut i: usize = 0;
    let ghost mut found: Seq<int> = Seq::empty();
    while i < ticks.len()
        invariant
            ticks@.len() == outcomes@.len(),
            i <= ticks@.len(),
            found == drifted_positions(ticks@, outcomes@, i as nat),
            drift@.len() == found.len(),
            forall|k: int| 0 <= k < found.len() ==> 0 <= #[trigger] found[k] < i,
            forall|k: int| 0 <= k < drift@.len() ==> drift_of_tick(#[trigger] drift@[k], ticks@[found[k]],
                outcomes@[found[k]]),
        decreases ticks@.len() - i,
    {
        let t = &ticks[i];
        let o = &outcomes[i];
        let differs = !string_eq_str(&t.expected_verdict, o.verdict.as_str())
            || !strings_equal(&t.expected_reasons, &o.reasons)
            || !string_eq_str(&t.expected_tip_hash, o.tip_hash.as_str());
        let ghost before = drift@;
        let ghost found_before = found;
        assert(differs == tick_drifted(ticks@[i as int], outcomes@[i as int]));
        if differs {
            drift.push(Drift {
                tick: t.tick,
                expected_verdict: t.expected_verdict.clone(),
                actual_verdict: o.verdict.clone(),
                expected_reasons: clone_strings(&t.expected_reasons),
                actual_reasons: clone_strings(&o.reasons),
                expected_tip_hash: t.expected_tip_hash.clone(),
                actual_tip_hash: o.tip_hash.clone(),
            });
            proof {
                found = found.push(i as int);
                assert forall|k: int| 0 <= k < drift@.len() implies drift_of_tick(#[trigger] drift@[k],
                    ticks@[found[k]], outcomes@[found[k]]) by {
                    if k < before.len() {
                        assert(drift@[k] == before[k]);
                        assert(found[k] == found_before[k]);
                    }
                }
            }
        }
        i = i + 1;
    }
    let ghost pos = drifted_positions(ticks@, outcomes@, ticks@.len());
    let ghost before = drift@;
    if !str_eq(expected_final_tip, actual_final_tip) {
        let last_tick = if ticks.len() == 0 { 0 } else { ticks[ticks.len() - 1].tick };
        drift.push(Drift {
            tick: last_tick,
            expected_verdict: "final-tip-hash".to_string(),
            actual_verdict: "final-tip-hash".to_string(),
            expected_reasons: Vec::new(),
            actual_reasons: Vec::new(),
            expected_tip_hash: expected_final_tip.to_string(),
            actual_tip_hash: actual_final_tip.to_string(),
        });
        assert forall|k: int| 0 <= k < pos.len() implies drift_of_tick(#[trigger] drift@[k], ticks@[pos[k]],
            outcomes@[pos[k]]) by {
            assert(drift@[k] == before[k]);
        }
    }
    proof {
        no_drift_iff_all_reproduced(ticks@, outcomes@, ticks@.len());
    }
    let count = drift.len();
    let result = if count == 0 { "PASS".to_string() } else { "FAIL".to_string() };
    TraceReplayReport { mission_id, profile, schema_version, result, drift_count: count, drift }
}

} // verus!

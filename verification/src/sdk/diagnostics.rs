//! Environment diagnostics: which problems a set of probes of the repository and the
//! toolchain reveals, and whether the environment is healthy.
use vstd::prelude::*;
use vstd::string::*;

use crate::casing::{spec_to_uppercase, to_uppercase};
use crate::sdk::paths::{join_path, join_path_str};
use crate::text::{concat_str, replace_char, replace_char_str, seq_lt, trim_str, trimmed};

verus! {

/// How serious a finding is.
#[derive(Debug, Clone, Copy, PartialEq, Eq, Structural)]
pub enum DiagnosticSeverity {
    Error,
    Warn,
    Info,
}

/// One problem found in the environment, and how to mend it.
pub struct DiagnosticFinding {
    pub code: String,
    pub severity: DiagnosticSeverity,
    pub message: String,
    pub remediation: String,
}

/// The outcome of a diagnostics run: `PASS`, `WARN` or `FAIL`, the findings, and what was
/// learnt on the way as key and value pairs, each key once.
pub struct DiagnosticReport {
    pub result: String,
    pub findings: Vec<DiagnosticFinding>,
    pub context: Vec<(String, String)>,
}

pub open spec fn finding_view(f: DiagnosticFinding) -> (Seq<char>, DiagnosticSeverity, Seq<char>, Seq<char>) {
    (f.code@, f.severity, f.message@, f.remediation@)
}

pub open spec fn findings_view(fs: Seq<DiagnosticFinding>) -> Seq<(Seq<char>, DiagnosticSeverity, Seq<char>, Seq<char>)> {
    fs.map_values(|f: DiagnosticFinding| finding_view(f))
}

pub open spec fn context_view(c: Seq<(String, String)>) -> Seq<(Seq<char>, Seq<char>)> {
    c.map_values(|e: (String, String)| (e.0@, e.1@))
}

pub open spec fn has_severity(fs: Seq<DiagnosticFinding>, s: DiagnosticSeverity) -> bool {
    exists|i: int| 0 <= i < fs.len() && #[trigger] fs[i].severity == s
}

/// `FAIL` when there is an error, else `WARN` when there is a warning, else `PASS`.
pub open spec fn spec_overall(fs: Seq<DiagnosticFinding>) -> Seq<char> {
    if has_severity(fs, DiagnosticSeverity::Error) {
        "FAIL"@
    } else if has_severity(fs, DiagnosticSeverity::Warn) {
        "WARN"@
    } else {
        "PASS"@
    }
}

fn any_with_severity(findings: &Vec<DiagnosticFinding>, severity: DiagnosticSeverity) -> (r: bool)
    ensures
        r == has_severity(findings@, severity),
{
    let mut i: usize = 0;
    while i < findings.len()
        invariant
            i <= findings@.len(),
            forall|j: int| 0 <= j < i ==> findings@[j].severity != severity,
        decreases findings@.len() - i,
    {
        if findings[i].severity == severity {
            return true;
        }
        i = i + 1;
    }
    false
}

/// The overall result of a list of findings.
pub fn overall_result(findings: &Vec<DiagnosticFinding>) -> (r: &'static str)
    ensures
        r@ == spec_overall(findings@),
{
    if any_with_severity(findings, DiagnosticSeverity::Error) {
        "FAIL"
    } else if any_with_severity(findings, DiagnosticSeverity::Warn) {
        "WARN"
    } else {
        "PASS"
    }
}

/// Whether a report passed with no error among its findings.
pub fn is_healthy(report: &DiagnosticReport) -> (r: bool)
    ensures
        r == (report.result@ == "PASS"@ && !has_severity(report.findings@, DiagnosticSeverity::Error)),
{
    proof {
        reveal_strlit("PASS");
    }
    crate::text::string_eq_str(&report.result, "PASS")
        && !any_with_severity(&report.findings, DiagnosticSeverity::Error)
}

/// What was found of the `tasc` tool in the repository.
pub enum TascProbe {
    Found { path: String, executable: bool },
    NotFound { path: String },
}

/// What running a tool with `--version` gave: its output on success, its error output
/// on a non-zero exit, or why it could not be run.
pub enum ToolProbe {
    Succeeded { stdout: String },
    Failed { stderr: String },
    Unavailable { error: String },
}

/// What was found in the repository: its root, the `tasc` tool, and whether each of the
/// examples `minimal-local`, `minimal-signed` and `minimal-replay` is a directory.
pub struct RepoProbe {
    pub root: String,
    pub tasc: TascProbe,
    pub local_present: bool,
    pub signed_present: bool,
    pub replay_present: bool,
}

/// Everything a diagnostics run looks at.
pub struct DiagnosticProbes {
    pub start_path: String,
    pub repo: Option<RepoProbe>,
    pub rustc: ToolProbe,
    pub cargo: ToolProbe,
}

pub open spec fn error_view(code: Seq<char>, message: Seq<char>, remediation: Seq<char>) -> (Seq<char>,
    DiagnosticSeverity, Seq<char>, Seq<char>) {
    (code, DiagnosticSeverity::Error, message, remediation)
}

pub open spec fn spec_example_path(root: Seq<char>, name: Seq<char>) -> Seq<char> {
    join_path(join_path(root, "examples"@), name)
}

pub open spec fn tasc_findings(t: TascProbe) -> Seq<(Seq<char>, DiagnosticSeverity, Seq<char>, Seq<char>)> {
    match t {
        TascProbe::Found { path, executable } => if executable {
            Seq::empty()
        } else {
            seq![error_view("TASC_NOT_EXECUTABLE"@, "resolved tasc path is not executable: "@ + path@,
                "ensure `tasc` has executable permissions"@)]
        },
        TascProbe::NotFound { path } => seq![error_view("TASC_NOT_FOUND"@,
            "could not resolve tasc executable at "@ + path@,
            "set SdkConfig.tasc_path or restore repository wrapper binary"@)],
    }
}

pub open spec fn example_findings(root: Seq<char>, name: Seq<char>, present: bool) -> Seq<(Seq<char>,
    DiagnosticSeverity, Seq<char>, Seq<char>)> {
    if present {
        Seq::empty()
    } else {
        seq![error_view("MISSING_EXAMPLE_"@ + spec_to_uppercase(replace_char(name, '-', '_')),
            "required example is missing: "@ + spec_example_path(root, name),
            "restore repository examples directory"@)]
    }
}

pub open spec fn repo_findings(start: Seq<char>, repo: Option<RepoProbe>) -> Seq<(Seq<char>, DiagnosticSeverity, Seq<char>, Seq<char>)> {
    match repo {
        None => seq![error_view("REPO_ROOT_NOT_FOUND"@, "could not resolve repo root from "@ + start,
            "run from inside the repository or set SdkConfig.repo_root"@)],
        Some(r) => tasc_findings(r.tasc)
            + example_findings(r.root@, "minimal-local"@, r.local_present)
            + example_findings(r.root@, "minimal-signed"@, r.signed_present)
            + example_findings(r.root@, "minimal-replay"@, r.replay_present),
    }
}

pub open spec fn tool_findings(tool: Seq<char>, code: Seq<char>, probe: ToolProbe) -> Seq<(Seq<char>,
    DiagnosticSeverity, Seq<char>, Seq<char>)> {
    match probe {
        ToolProbe::Succeeded { .. } => Seq::empty(),
        ToolProbe::Failed { stderr } => seq![error_view(code,
            tool + " reported non-zero status: "@ + trimmed(stderr@),
            "reinstall or repair "@ + tool + " toolchain"@)],
        ToolProbe::Unavailable { error } => seq![error_view(code,
            "failed to execute "@ + tool + ": "@ + error@,
            "ensure `"@ + tool + "` is installed and available on PATH"@)],
    }
}

/// The findings of a diagnostics run from `start`, in the order they are made.
pub open spec fn findings_from(start: Seq<char>, repo: Option<RepoProbe>, rustc: ToolProbe, cargo: ToolProbe) -> Seq<(Seq<char>, DiagnosticSeverity, Seq<char>, Seq<char>)> {
    repo_findings(start, repo)
        + tool_findings("rustc"@, "RUSTC_NOT_AVAILABLE"@, rustc)
        + tool_findings("cargo"@, "CARGO_NOT_AVAILABLE"@, cargo)
}

/// The findings of a diagnostics run, in the order they are made.
pub open spec fn expected_findings(p: DiagnosticProbes) -> Seq<(Seq<char>, DiagnosticSeverity, Seq<char>, Seq<char>)> {
    findings_from(p.start_path@, p.repo, p.rustc, p.cargo)
}

pub open spec fn tool_context(tool: Seq<char>, probe: ToolProbe) -> Seq<(Seq<char>, Seq<char>)> {
    match probe {
        ToolProbe::Succeeded { stdout } => seq![(tool + "Version"@, trimmed(stdout@))],
        _ => Seq::empty(),
    }
}

/// The repository root where it was found.
pub open spec fn repo_context(repo: Option<RepoProbe>) -> Seq<(Seq<char>, Seq<char>)> {
    match repo {
        None => Seq::empty(),
        Some(r) => seq![("repoRoot"@, r.root@)],
    }
}

/// The `tasc` path where it was found.
pub open spec fn tasc_context(repo: Option<RepoProbe>) -> Seq<(Seq<char>, Seq<char>)> {
    match repo {
        Some(r) => match r.tasc {
            TascProbe::Found { path, .. } => seq![("tascPath"@, path@)],
            TascProbe::NotFound { .. } => Seq::empty(),
        },
        None => Seq::empty(),
    }
}

/// What a diagnostics run from `start` records, ordered by key: the version of `cargo` if
/// it ran, the repository root if found, the version of `rustc` if it ran, the start path,
/// and the `tasc` path if found.
pub open spec fn context_from(start: Seq<char>, repo: Option<RepoProbe>, rustc: ToolProbe, cargo: ToolProbe) -> Seq<(Seq<char>, Seq<char>)> {
    tool_context("cargo"@, cargo) + repo_context(repo) + tool_context("rustc"@, rustc) + seq![("startPath"@, start)]
        + tasc_context(repo)
}

/// What a diagnostics run records.
pub open spec fn expected_context(p: DiagnosticProbes) -> Seq<(Seq<char>, Seq<char>)> {
    context_from(p.start_path@, p.repo, p.rustc, p.cargo)
}

fn push_error(findings: &mut Vec<DiagnosticFinding>, code: String, message: String, remediation: String)
    ensures
        findings_view(final(findings)@) == findings_view(old(findings)@).push(
            error_view(code@, message@, remediation@)),
{
    let ghost before = findings@;
    findings.push(DiagnosticFinding { code, severity: DiagnosticSeverity::Error, message, remediation });
    assert(findings_view(findings@) =~= findings_view(before).push(error_view(code@, message@, remediation@)));
}

fn push_context(context: &mut Vec<(String, String)>, key: String, value: String)
    ensures
        context_view(final(context)@) == context_view(old(context)@).push((key@, value@)),
{
    let ghost before = context@;
    context.push((key, value));
    assert(context_view(context@) =~= context_view(before).push((key@, value@)));
}

/// Where an example is expected in the repository.
pub fn example_path(root: &str, name: &str) -> (r: String)
    requires
        name@.len() > 0,
        name@[0] != '/',
    ensures
        r@ == spec_example_path(root@, name@),
{
    proof {
        reveal_strlit("examples");
    }
    let dir = join_path_str(root, "examples");
    join_path_str(dir.as_str(), name)
}

fn check_example(root: &str, name: &str, present: bool, findings: &mut Vec<DiagnosticFinding>)
    requires
        name@.len() > 0,
        name@[0] != '/',
    ensures
        findings_view(final(findings)@) == findings_view(old(findings)@) + example_findings(root@, name@, present),
{
    if !present {
        proof {
            reveal_strlit("_");
        }
        let underscored = replace_char_str(name, '-', "_");
        let upper = to_uppercase(underscored.as_str());
        let code = concat_str("MISSING_EXAMPLE_", upper.as_str());
        let path = example_path(root, name);
        let message = concat_str("required example is missing: ", path.as_str());
        push_error(findings, code, message, "restore repository examples directory".to_string());
    }
    assert(findings_view(final(findings)@) =~= findings_view(old(findings)@) + example_findings(root@, name@, present));
}

fn push_tool_context(tool: &str, probe: &ToolProbe, context: &mut Vec<(String, String)>)
    ensures
        context_view(final(context)@) == context_view(old(context)@) + tool_context(tool@, *probe),
{
    match probe {
        ToolProbe::Succeeded { stdout } => {
            let key = concat_str(tool, "Version");
            push_context(context, key, trim_str(stdout.as_str()));
        },
        _ => {},
    }
    assert(context_view(final(context)@) =~= context_view(old(context)@) + tool_context(tool@, *probe));
}

fn check_tool(tool: &str, code: &str, probe: &ToolProbe, findings: &mut Vec<DiagnosticFinding>)
    ensures
        findings_view(final(findings)@) == findings_view(old(findings)@) + tool_findings(tool@, code@, *probe),
{
    match probe {
        ToolProbe::Succeeded { .. } => {},
        ToolProbe::Failed { stderr } => {
            let head = concat_str(tool, " reported non-zero status: ");
            let detail = trim_str(stderr.as_str());
            let message = concat_str(head.as_str(), detail.as_str());
            let fix_head = concat_str("reinstall or repair ", tool);
            let remediation = concat_str(fix_head.as_str(), " toolchain");
            push_error(findings, code.to_string(), message, remediation);
        },
        ToolProbe::Unavailable { error } => {
            let head = concat_str("failed to execute ", tool);
            let head2 = concat_str(head.as_str(), ": ");
            let message = concat_str(head2.as_str(), error.as_str());
            let fix_head = concat_str("ensure `", tool);
            let remediation = concat_str(fix_head.as_str(), "` is installed and available on PATH");
            push_error(findings, code.to_string(), message, remediation);
        },
    }
    assert(findings_view(final(findings)@) =~= findings_view(old(findings)@) + tool_findings(tool@, code@, *probe));
}

fn check_repo(probes: &DiagnosticProbes, findings: &mut Vec<DiagnosticFinding>)
    requires
        old(findings)@.len() == 0,
    ensures
        findings_view(final(findings)@) == repo_findings(probes.start_path@, probes.repo),
{
    match &probes.repo {
        None => {
            let message = concat_str("could not resolve repo root from ", probes.start_path.as_str());
            push_error(findings, "REPO_ROOT_NOT_FOUND".to_string(), message,
                "run from inside the repository or set SdkConfig.repo_root".to_string());
            assert(findings_view(findings@) =~= repo_findings(probes.start_path@, probes.repo));
        },
        Some(repo) => {
            match &repo.tasc {
                TascProbe::Found { path, executable } => {
                    if !*executable {
                        let message = concat_str("resolved tasc path is not executable: ", path.as_str());
                        push_error(findings, "TASC_NOT_EXECUTABLE".to_string(), message,
                            "ensure `tasc` has executable permissions".to_string());
                    }
                },
                TascProbe::NotFound { path } => {
                    let message = concat_str("could not resolve tasc executable at ", path.as_str());
                    push_error(findings, "TASC_NOT_FOUND".to_string(), message,
                        "set SdkConfig.tasc_path or restore repository wrapper binary".to_string());
                },
            }
            assert(findings_view(findings@) =~= tasc_findings(repo.tasc));
            proof {
                reveal_strlit("minimal-local");
                reveal_strlit("minimal-signed");
                reveal_strlit("minimal-replay");
            }
            check_example(repo.root.as_str(), "minimal-local", repo.local_present, findings);
            check_example(repo.root.as_str(), "minimal-signed", repo.signed_present, findings);
            check_example(repo.root.as_str(), "minimal-replay", repo.replay_present, findings);
            assert(findings_view(findings@) =~= repo_findings(probes.start_path@, probes.repo));
        },
    }
}

/// The diagnostics report of a set of probes: the findings about the repository (its
/// root, the `tasc` tool, the examples) and the toolchain (`rustc`, `cargo`), the overall
/// result they give, and what was learnt on the way.
pub fn run(probes: &DiagnosticProbes) -> (r: DiagnosticReport)
    ensures
        findings_view(r.findings@) == expected_findings(*probes),
        context_view(r.context@) == expected_context(*probes),
        forall|i: int, j: int| 0 <= i < j < r.context@.len() ==> seq_lt(#[trigger] r.context@[i].0@,
            #[trigger] r.context@[j].0@),
        r.result@ == spec_overall(r.findings@),
{
    let mut findings: Vec<DiagnosticFinding> = Vec::new();
    check_repo(probes, &mut findings);
    check_tool("rustc", "RUSTC_NOT_AVAILABLE", &probes.rustc, &mut findings);
    check_tool("cargo", "CARGO_NOT_AVAILABLE", &probes.cargo, &mut findings);
    let mut context: Vec<(String, String)> = Vec::new();
    assert(context_view(context@) =~= Seq::<(Seq<char>, Seq<char>)>::empty());
    push_tool_context("cargo", &probes.cargo, &mut context);
    if let Some(repo) = &probes.repo {
        push_context(&mut context, "repoRoot".to_string(), repo.root.clone());
    }
    assert(context_view(context@) =~= tool_context("cargo"@, probes.cargo) + repo_context(probes.repo));
    push_tool_context("rustc", &probes.rustc, &mut context);
    push_context(&mut context, "startPath".to_string(), probes.start_path.clone());
    let ghost before_tasc = context_view(context@);
    if let Some(repo) = &probes.repo {
        if let TascProbe::Found { path, .. } = &repo.tasc {
            push_context(&mut context, "tascPath".to_string(), path.clone());
        }
    }
    assert(context_view(context@) =~= before_tasc + tasc_context(probes.repo));
    assert(findings_view(findings@) =~= expected_findings(*probes));
    assert(context_view(context@) =~= expected_context(*probes));
    proof {
        context_is_sorted_by_key(probes.start_path@, probes.repo, probes.rustc, probes.cargo);
        assert forall|i: int, j: int| 0 <= i < j < context@.len() implies seq_lt(#[trigger] context@[i].0@,
            #[trigger] context@[j].0@) by {
            let c = context_from(probes.start_path@, probes.repo, probes.rustc, probes.cargo);
            assert(c == context_view(context@));
            assert(c[i] == (context@[i].0@, context@[i].1@));
            assert(c[j] == (context@[j].0@, context@[j].1@));
            assert(seq_lt(c[i].0, c[j].0));
        }
    }
    let result = overall_result(&findings).to_string();
    DiagnosticReport { result, findings, context }
}

/// Every finding a diagnostics run can make is an error.
proof fn findings_are_errors(p: DiagnosticProbes)
    ensures
        forall|i: int| 0 <= i < expected_findings(p).len() ==> (#[trigger] expected_findings(p)[i]).1
            == DiagnosticSeverity::Error,
{
    let repo = repo_findings(p.start_path@, p.repo);
    let tools = tool_findings("rustc"@, "RUSTC_NOT_AVAILABLE"@, p.rustc) + tool_findings("cargo"@,
        "CARGO_NOT_AVAILABLE"@, p.cargo);
    assert(expected_findings(p) =~= repo + tools);
    assert forall|i: int| 0 <= i < repo.len() implies (#[trigger] repo[i]).1 == DiagnosticSeverity::Error by {
        match p.repo {
            None => {},
            Some(r) => {
                let a = tasc_findings(r.tasc);
                let b = example_findings(r.root@, "minimal-local"@, r.local_present);
                let c = example_findings(r.root@, "minimal-signed"@, r.signed_present);
                let d = example_findings(r.root@, "minimal-replay"@, r.replay_present);
                assert(repo =~= a + b + c + d);
                if i < a.len() {
                } else if i < a.len() + b.len() {
                    assert(repo[i] == b[i - a.len()]);
                } else if i < a.len() + b.len() + c.len() {
                    assert(repo[i] == c[i - a.len() - b.len()]);
                } else {
                    assert(repo[i] == d[i - a.len() - b.len() - c.len()]);
                }
            },
        }
    }
    let t1 = tool_findings("rustc"@, "RUSTC_NOT_AVAILABLE"@, p.rustc);
    let t2 = tool_findings("cargo"@, "CARGO_NOT_AVAILABLE"@, p.cargo);
    assert forall|i: int| 0 <= i < expected_findings(p).len() implies (#[trigger] expected_findings(p)[i]).1
        == DiagnosticSeverity::Error by {
        if i < repo.len() {
            assert(expected_findings(p)[i] == repo[i]);
        } else if i < repo.len() + t1.len() {
            assert(expected_findings(p)[i] == t1[i - repo.len()]);
        } else {
            assert(expected_findings(p)[i] == t2[i - repo.len() - t1.len()]);
        }
    }
}

/// A diagnostics report passes exactly when the run found nothing, and then, and only
/// then, the environment is healthy.
pub proof fn report_passes_iff_nothing_found(p: DiagnosticProbes, r: DiagnosticReport)
    requires
        findings_view(r.findings@) == expected_findings(p),
        r.result@ == spec_overall(r.findings@),
    ensures
        (r.result@ == "PASS"@) <==> expected_findings(p).len() == 0,
        (r.result@ == "PASS"@ && !has_severity(r.findings@, DiagnosticSeverity::Error))
            <==> expected_findings(p).len() == 0,
{
    findings_are_errors(p);
    reveal_strlit("PASS");
    reveal_strlit("FAIL");
    reveal_strlit("WARN");
    let fs = r.findings@;
    assert(findings_view(fs).len() == fs.len());
    if fs.len() > 0 {
        assert(findings_view(fs)[0] == finding_view(fs[0]));
        assert(fs[0].severity == DiagnosticSeverity::Error);
        assert(has_severity(fs, DiagnosticSeverity::Error));
        assert(r.result@ == "FAIL"@);
        assert("FAIL"@[0] != "PASS"@[0]);
        assert(r.result@ != "PASS"@);
        assert(expected_findings(p).len() > 0);
    } else {
        assert(!has_severity(fs, DiagnosticSeverity::Error));
        assert(!has_severity(fs, DiagnosticSeverity::Warn));
    }
}

/// Each problem in the probes is reported as an error finding: a missing repository root,
/// a `tasc` tool that is missing or not executable, and a `rustc` or `cargo` that did not
/// run cleanly. The run finds nothing exactly when the repository was found with an
/// executable `tasc` and all three examples, and both tools ran cleanly.
pub proof fn every_problem_is_reported(p: DiagnosticProbes)
    ensures
        p.repo is None ==> exists|i: int| 0 <= i < expected_findings(p).len()
            && (#[trigger] expected_findings(p)[i]).0 == "REPO_ROOT_NOT_FOUND"@
            && expected_findings(p)[i].1 == DiagnosticSeverity::Error,
        p.repo is Some && p.repo->0.tasc is NotFound ==> exists|i: int|
            0 <= i < expected_findings(p).len() && #[trigger] expected_findings(p)[i] == (
                "TASC_NOT_FOUND"@,
                DiagnosticSeverity::Error,
                "could not resolve tasc executable at "@ + p.repo->0.tasc->NotFound_path@,
                "set SdkConfig.tasc_path or restore repository wrapper binary"@,
            ),
        p.repo is Some && p.repo->0.tasc is Found && !p.repo->0.tasc->executable ==> exists|i: int|
            0 <= i < expected_findings(p).len() && (#[trigger] expected_findings(p)[i]).0 == "TASC_NOT_EXECUTABLE"@
            && expected_findings(p)[i].1 == DiagnosticSeverity::Error,
        !(p.rustc is Succeeded) ==> exists|i: int| 0 <= i < expected_findings(p).len()
            && (#[trigger] expected_findings(p)[i]).0 == "RUSTC_NOT_AVAILABLE"@
            && expected_findings(p)[i].1 == DiagnosticSeverity::Error,
        !(p.cargo is Succeeded) ==> exists|i: int| 0 <= i < expected_findings(p).len()
            && (#[trigger] expected_findings(p)[i]).0 == "CARGO_NOT_AVAILABLE"@
            && expected_findings(p)[i].1 == DiagnosticSeverity::Error,
        expected_findings(p).len() == 0 <==> (p.repo matches Some(r) && r.tasc matches TascProbe::Found {
            executable: true, .. } && r.local_present && r.signed_present && r.replay_present
            && p.rustc is Succeeded && p.cargo is Succeeded),
{
    let repo = repo_findings(p.start_path@, p.repo);
    let t1 = tool_findings("rustc"@, "RUSTC_NOT_AVAILABLE"@, p.rustc);
    let t2 = tool_findings("cargo"@, "CARGO_NOT_AVAILABLE"@, p.cargo);
    let all = expected_findings(p);
    assert(all =~= repo + t1 + t2);
    match p.repo {
        None => {
            assert(all[0] == repo[0]);
        },
        Some(r) => {
            let a = tasc_findings(r.tasc);
            let b = example_findings(r.root@, "minimal-local"@, r.local_present);
            let c = example_findings(r.root@, "minimal-signed"@, r.signed_present);
            let d = example_findings(r.root@, "minimal-replay"@, r.replay_present);
            assert(repo =~= a + b + c + d);
            assert(a.len() > 0 ==> repo[0] == a[0] && all[0] == repo[0]);
            match r.tasc {
                TascProbe::NotFound { path } => {
                    assert(a[0] == error_view("TASC_NOT_FOUND"@, "could not resolve tasc executable at "@ + path@,
                        "set SdkConfig.tasc_path or restore repository wrapper binary"@));
                    assert(all[0] == a[0]);
                    assert(expected_findings(p)[0] == a[0]);
                },
                TascProbe::Found { path, executable } => {
                    if !executable {
                        assert(all[0] == a[0]);
                        assert(expected_findings(p)[0].0 == "TASC_NOT_EXECUTABLE"@);
                    }
                },
            }
        },
    }
    if !(p.rustc is Succeeded) {
        assert(all[repo.len() as int] == t1[0]);
    }
    if !(p.cargo is Succeeded) {
        assert(all[(repo.len() + t1.len()) as int] == t2[0]);
    }
}

/// A report from a run whose repository was found without a `tasc` tool does not pass,
/// and carries the `TASC_NOT_FOUND` error naming the path where it was looked for.
pub proof fn missing_tasc_fails_the_report(p: DiagnosticProbes, r: DiagnosticReport)
    requires
        findings_view(r.findings@) == expected_findings(p),
        r.result@ == spec_overall(r.findings@),
        p.repo matches Some(rp) && rp.tasc is NotFound,
    ensures
        r.result@ != "PASS"@,
        exists|i: int| 0 <= i < r.findings@.len() && (#[trigger] r.findings@[i]).code@ == "TASC_NOT_FOUND"@
            && r.findings@[i].severity == DiagnosticSeverity::Error
            && r.findings@[i].message@ == "could not resolve tasc executable at "@
                + p.repo->0.tasc->NotFound_path@,
{
    every_problem_is_reported(p);
    report_passes_iff_nothing_found(p, r);
    let path = p.repo->0.tasc->NotFound_path;
    let i = choose|i: int| 0 <= i < expected_findings(p).len() && #[trigger] expected_findings(p)[i] == (
        "TASC_NOT_FOUND"@,
        DiagnosticSeverity::Error,
        "could not resolve tasc executable at "@ + path@,
        "set SdkConfig.tasc_path or restore repository wrapper binary"@,
    );
    assert(findings_view(r.findings@)[i] == finding_view(r.findings@[i]));
}

/// The keys a diagnostics run can record are in strictly increasing order.
proof fn context_keys_ordered()
    ensures
        seq_lt("cargo"@ + "Version"@, "repoRoot"@),
        seq_lt("cargo"@ + "Version"@, "rustc"@ + "Version"@),
        seq_lt("cargo"@ + "Version"@, "startPath"@),
        seq_lt("cargo"@ + "Version"@, "tascPath"@),
        seq_lt("repoRoot"@, "rustc"@ + "Version"@),
        seq_lt("repoRoot"@, "startPath"@),
        seq_lt("repoRoot"@, "tascPath"@),
        seq_lt("rustc"@ + "Version"@, "startPath"@),
        seq_lt("rustc"@ + "Version"@, "tascPath"@),
        seq_lt("startPath"@, "tascPath"@),
{
    reveal_strlit("cargo");
    reveal_strlit("rustc");
    reveal_strlit("Version");
    reveal_strlit("repoRoot");
    reveal_strlit("startPath");
    reveal_strlit("tascPath");
    reveal_with_fuel(seq_lt, 3);
    let cv = "cargo"@ + "Version"@;
    let rv = "rustc"@ + "Version"@;
    assert(cv[0] == 'c');
    assert(rv[0] == 'r' && rv[1] == 'u');
    assert("repoRoot"@.drop_first()[0] == 'e');
    assert(rv.drop_first()[0] == 'u');
}

/// What a diagnostics report records is ordered by key, each key once, as in a sorted map.
pub proof fn context_is_sorted_by_key(start: Seq<char>, repo: Option<RepoProbe>, rustc: ToolProbe, cargo: ToolProbe)
    ensures
        ({
            let c = context_from(start, repo, rustc, cargo);
            forall|i: int, j: int| 0 <= i < j < c.len() ==> seq_lt(#[trigger] c[i].0, #[trigger] c[j].0)
        }),
{
    context_keys_ordered();
    let c = context_from(start, repo, rustc, cargo);
    let a = tool_context("cargo"@, cargo);
    let b = repo_context(repo);
    let d = tool_context("rustc"@, rustc);
    let e = seq![("startPath"@, start)];
    let f = tasc_context(repo);
    assert(c =~= a + b + d + e + f);
    assert forall|i: int, j: int| 0 <= i < j < c.len() implies seq_lt(#[trigger] c[i].0, #[trigger] c[j].0) by {
        let la = a.len() as int;
        let lb = b.len() as int;
        let ld = d.len() as int;
        assert(la <= 1 && lb <= 1 && ld <= 1 && f.len() <= 1);
        if i < la { assert(c[i] == a[i]); }
        else if i < la + lb { assert(c[i] == b[i - la]); }
        else if i < la + lb + ld { assert(c[i] == d[i - la - lb]); }
        else if i < la + lb + ld + 1 { assert(c[i] == e[i - la - lb - ld]); }
        else { assert(c[i] == f[i - la - lb - ld - 1]); }
        if j < la { assert(c[j] == a[j]); }
        else if j < la + lb { assert(c[j] == b[j - la]); }
        else if j < la + lb + ld { assert(c[j] == d[j - la - lb]); }
        else if j < la + lb + ld + 1 { assert(c[j] == e[j - la - lb - ld]); }
        else { assert(c[j] == f[j - la - lb - ld - 1]); }
    }
}

} // verus!

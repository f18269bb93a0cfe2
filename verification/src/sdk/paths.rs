//! Where the SDK looks for the repository, the `tasc` tool and the last run's artifacts.
//! Paths are text; whether a file exists is looked up by the caller and handed in.
use vstd::prelude::*;
use vstd::string::*;

use crate::sdk::SdkError;

verus! {

/// `part` appended to `base` as a path component, as `Path::join` does for a relative
/// `part`: no separator is added after an empty base or one that already ends in `/`.
pub open spec fn join_path(base: Seq<char>, part: Seq<char>) -> Seq<char> {
    if base.len() == 0 {
        part
    } else if base.last() == '/' {
        base + part
    } else {
        base + seq!['/'] + part
    }
}

/// Appends a relative component to a path.
pub fn join_path_str(base: &str, part: &str) -> (r: String)
    requires
        part@.len() > 0,
        part@[0] != '/',
    ensures
        r@ == join_path(base@, part@),
{
    let n = base.unicode_len();
    let mut out = base.to_string();
    if n > 0 && base.get_char(n - 1) != '/' {
        proof {
            reveal_strlit("/");
        }
        out.append("/");
    }
    out.append(part);
    proof {
        if n > 0 {
            assert(base@.last() == base@[n - 1]);
        }
    }
    out
}

/// `base/TASC/asc-standard`, where a repository may hold the standard one level down.
pub open spec fn nested_root(base: Seq<char>) -> Seq<char> {
    join_path(join_path(base, "TASC"@), "asc-standard"@)
}

/// What is known of one ancestor of the start directory: whether it is a repository root
/// (it holds both `tasc` and `tasc.yaml` as files), and whether its nested standard is.
pub struct AncestorProbe {
    pub path: String,
    pub is_root: bool,
    pub nested_is_root: bool,
}

/// The first ancestor, nearest first, that is a root or holds a nested root.
pub open spec fn find_root(ancestors: Seq<AncestorProbe>) -> Option<Seq<char>>
    decreases ancestors.len(),
{
    if ancestors.len() == 0 {
        None
    } else if ancestors[0].is_root {
        Some(ancestors[0].path@)
    } else if ancestors[0].nested_is_root {
        Some(nested_root(ancestors[0].path@))
    } else {
        find_root(ancestors.drop_first())
    }
}

fn nested_root_str(base: &str) -> (r: String)
    ensures
        r@ == nested_root(base@),
{
    proof {
        reveal_strlit("TASC");
        reveal_strlit("asc-standard");
    }
    let first = join_path_str(base, "TASC");
    join_path_str(first.as_str(), "asc-standard")
}

/// The repository root seen from `start`, given the probes of its ancestors from `start`
/// itself up to the file-system root; `RepoNotFound(start)` when no ancestor qualifies.
pub fn resolve_repo_root(start: &str, ancestors: &Vec<AncestorProbe>) -> (r: Result<String, SdkError>)
    ensures
        find_root(ancestors@) matches Some(p) ==> (r matches Ok(root) && root@ == p),
        find_root(ancestors@) is None ==> (r matches Err(SdkError::RepoNotFound(s)) && s@ == start@),
{
    let n = ancestors.len();
    let mut i: usize = 0;
    assert(ancestors@.subrange(0, n as int) =~= ancestors@);
    while i < n
        invariant
            n == ancestors@.len(),
            i <= n,
            find_root(ancestors@) == find_root(ancestors@.subrange(i as int, n as int)),
        decreases n - i,
    {
        let probe = &ancestors[i];
        proof {
            let rest = ancestors@.subrange(i as int, n as int);
            assert(rest[0] == ancestors@[i as int]);
            assert(rest.drop_first() =~= ancestors@.subrange(i + 1, n as int));
        }
        if probe.is_root {
            return Ok(probe.path.clone());
        }
        if probe.nested_is_root {
            return Ok(nested_root_str(probe.path.as_str()));
        }
        i = i + 1;
    }
    Err(SdkError::RepoNotFound(start.to_string()))
}

/// The path at which `tasc` is looked for: the override when there is one, else `tasc` in
/// the repository root.
pub open spec fn spec_tasc_candidate(repo_root: Seq<char>, override_path: Option<String>) -> Seq<char> {
    match override_path {
        Some(p) => p@,
        None => join_path(repo_root, "tasc"@),
    }
}

/// The path to check for the `tasc` tool.
pub fn tasc_candidate(repo_root: &str, override_path: &Option<String>) -> (r: String)
    ensures
        r@ == spec_tasc_candidate(repo_root@, *override_path),
{
    match override_path {
        Some(p) => p.clone(),
        None => {
            proof {
                reveal_strlit("tasc");
            }
            join_path_str(repo_root, "tasc")
        },
    }
}

/// The `tasc` tool's path when the candidate is a file, else `TascNotFound` with the
/// candidate.
pub fn resolve_tasc_path(repo_root: &str, override_path: &Option<String>, candidate_is_file: bool) -> (r:
    Result<String, SdkError>)
    ensures
        candidate_is_file ==> (r matches Ok(p) && p@ == spec_tasc_candidate(repo_root@, *override_path)),
        !candidate_is_file ==> (r matches Err(SdkError::TascNotFound(p))
            && p@ == spec_tasc_candidate(repo_root@, *override_path)),
{
    let candidate = tasc_candidate(repo_root, override_path);
    if candidate_is_file {
        Ok(candidate)
    } else {
        Err(SdkError::TascNotFound(candidate))
    }
}

/// `.tasc/last-report.json` under the repository root.
pub open spec fn spec_report_path(repo_root: Seq<char>) -> Seq<char> {
    join_path(join_path(repo_root, ".tasc"@), "last-report.json"@)
}

/// `.tasc/last-explain.json` under the repository root.
pub open spec fn spec_explain_path(repo_root: Seq<char>) -> Seq<char> {
    join_path(join_path(repo_root, ".tasc"@), "last-explain.json"@)
}

/// Where the last verification report is written.
pub fn report_path(repo_root: &str) -> (r: String)
    ensures
        r@ == spec_report_path(repo_root@),
{
    proof {
        reveal_strlit(".tasc");
        reveal_strlit("last-report.json");
    }
    let state_dir = join_path_str(repo_root, ".tasc");
    join_path_str(state_dir.as_str(), "last-report.json")
}

/// Where the last explanation is written.
pub fn explain_path(repo_root: &str) -> (r: String)
    ensures
        r@ == spec_explain_path(repo_root@),
{
    proof {
        reveal_strlit(".tasc");
        reveal_strlit("last-explain.json");
    }
    let state_dir = join_path_str(repo_root, ".tasc");
    join_path_str(state_dir.as_str(), "last-explain.json")
}

/// The last run's artifacts that exist.
pub struct LastArtifacts {
    pub report_path: Option<String>,
    pub explain_path: Option<String>,
}

/// The last report and explanation of the repository, each where it exists.
pub fn locate(repo_root: &str, report_exists: bool, explain_exists: bool) -> (r: LastArtifacts)
    ensures
        report_exists <==> r.report_path is Some,
        explain_exists <==> r.explain_path is Some,
        r.report_path matches Some(p) ==> p@ == spec_report_path(repo_root@),
        r.explain_path matches Some(p) ==> p@ == spec_explain_path(repo_root@),
{
    let report = report_path(repo_root);
    let explain = explain_path(repo_root);
    LastArtifacts {
        report_path: if report_exists { Some(report) } else { None },
        explain_path: if explain_exists { Some(explain) } else { None },
    }
}

/// The last report's path, or `ParseError("last report not found")`.
pub fn last_report_path(paths: &LastArtifacts) -> (r: Result<String, SdkError>)
    ensures
        paths.report_path matches Some(p) ==> (r matches Ok(q) && q@ == p@),
        paths.report_path is None ==> (r matches Err(SdkError::ParseError(m)) && m@ == "last report not found"@),
{
    match &paths.report_path {
        Some(p) => Ok(p.clone()),
        None => Err(SdkError::ParseError("last report not found".to_string())),
    }
}

/// The last explanation's path, or `ParseError("last explain not found")`.
pub fn last_explain_path(paths: &LastArtifacts) -> (r: Result<String, SdkError>)
    ensures
        paths.explain_path matches Some(p) ==> (r matches Ok(q) && q@ == p@),
        paths.explain_path is None ==> (r matches Err(SdkError::ParseError(m)) && m@ == "last explain not found"@),
{
    match &paths.explain_path {
        Some(p) => Ok(p.clone()),
        None => Err(SdkError::ParseError("last explain not found".to_string())),
    }
}

} // verus!

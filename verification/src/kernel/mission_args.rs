//! The mission runner's command line and the names of the files a mission writes.
use vstd::prelude::*;
use vstd::string::*;

use crate::text::{concat_str, str_eq, strings_view};

verus! {

/// The mission runner's settings.
pub struct MissionArgs {
    pub repo_root: String,
    pub profile: String,
    pub mission_input: String,
    pub out_dir: String,
}

/// Why the mission runner's arguments could not be read.
pub enum MissionArgsError {
    /// No command was given.
    MissingCommand,
    /// The command is not `run-mission`.
    UnsupportedCommand(String),
    /// A flag that takes a value came last.
    MissingValue,
    /// An argument the runner does not know.
    UnknownArgument(String),
    /// The profile, mission input or output directory was not given.
    Usage,
}

/// The settings as plain values.
pub struct MissionArgsModel {
    pub repo_root: Seq<char>,
    pub profile: Seq<char>,
    pub mission_input: Seq<char>,
    pub out_dir: Seq<char>,
}

/// The outcome of reading the flags, as plain values.
pub enum MissionFlagsOutcome {
    Parsed(MissionArgsModel),
    MissingValue,
    UnknownArgument(Seq<char>),
}

/// Reads the flags left to right on top of `acc`: `--repo-root`, `--profile`,
/// `--mission-input` and `--out-dir` each take the next argument as value.
pub open spec fn read_mission_flags(args: Seq<Seq<char>>, acc: MissionArgsModel) -> MissionFlagsOutcome
    decreases args.len(),
{
    if args.len() == 0 {
        MissionFlagsOutcome::Parsed(acc)
    } else {
        let flag = args[0];
        let rest = args.drop_first();
        if flag == "--repo-root"@ || flag == "--profile"@ || flag == "--mission-input"@ || flag == "--out-dir"@ {
            if rest.len() == 0 {
                MissionFlagsOutcome::MissingValue
            } else {
                let value = rest[0];
                let next = if flag == "--repo-root"@ {
                    MissionArgsModel { repo_root: value, ..acc }
                } else if flag == "--profile"@ {
                    MissionArgsModel { profile: value, ..acc }
                } else if flag == "--mission-input"@ {
                    MissionArgsModel { mission_input: value, ..acc }
                } else {
                    MissionArgsModel { out_dir: value, ..acc }
                };
                read_mission_flags(rest.drop_first(), next)
            }
        } else {
            MissionFlagsOutcome::UnknownArgument(flag)
        }
    }
}

pub open spec fn initial_mission_args() -> MissionArgsModel {
    MissionArgsModel { repo_root: "."@, profile: Seq::empty(), mission_input: Seq::empty(), out_dir: Seq::empty() }
}

pub open spec fn mission_args_model(a: MissionArgs) -> MissionArgsModel {
    MissionArgsModel { repo_root: a.repo_root@, profile: a.profile@, mission_input: a.mission_input@, out_dir: a.out_dir@ }
}

/// Reads the mission runner's arguments (the program name excluded): the command
/// `run-mission`, then its flags; the profile, mission input and output directory are
/// required.
pub fn parse_mission_args(args: &Vec<String>) -> (r: Result<MissionArgs, MissionArgsError>)
    ensures
        ({
            let all = strings_view(args@);
            if all.len() == 0 {
                r matches Err(MissionArgsError::MissingCommand)
            } else if all[0] != "run-mission"@ {
                r matches Err(MissionArgsError::UnsupportedCommand(c)) && c@ == all[0]
            } else {
                match read_mission_flags(all.drop_first(), initial_mission_args()) {
                    MissionFlagsOutcome::Parsed(m) => if m.profile.len() == 0 || m.mission_input.len() == 0
                        || m.out_dir.len() == 0 {
                        r matches Err(MissionArgsError::Usage)
                    } else {
                        r matches Ok(a) && mission_args_model(a) == m
                    },
                    MissionFlagsOutcome::MissingValue => r matches Err(MissionArgsError::MissingValue),
                    MissionFlagsOutcome::UnknownArgument(f) => r matches Err(MissionArgsError::UnknownArgument(g))
                        && g@ == f,
                }
            }
        }),
{
    let ghost all = strings_view(args@);
    if args.len() == 0 {
        return Err(MissionArgsError::MissingCommand);
    }
    assert(all[0] == args@[0]@);
    if !str_eq(args[0].as_str(), "run-mission") {
        return Err(MissionArgsError::UnsupportedCommand(args[0].clone()));
    }
    let ghost flags = all.drop_first();
    proof {
        reveal_strlit(".");
    }
    let mut acc = MissionArgs {
        repo_root: ".".to_string(),
        profile: String::new(),
        mission_input: String::new(),
        out_dir: String::new(),
    };
    assert(mission_args_model(acc) =~= initial_mission_args());
    let mut i: usize = 1;
    assert(all.subrange(1, all.len() as int) =~= flags);
    while i < args.len()
        invariant
            1 <= i <= args.len(),
            all == strings_view(args@),
            flags == all.drop_first(),
            all.len() > 0 && all[0] == "run-mission"@,
            read_mission_flags(flags, initial_mission_args()) == read_mission_flags(
                all.subrange(i as int, all.len() as int), mission_args_model(acc)),
        decreases args.len() - i,
    {
        let ghost rest = all.subrange(i as int, all.len() as int);
        assert(rest[0] == args@[i as int]@);
        assert(rest.drop_first() =~= all.subrange(i + 1, all.len() as int));
        let flag = args[i].as_str();
        let takes_value = str_eq(flag, "--repo-root") || str_eq(flag, "--profile") || str_eq(flag, "--mission-input")
            || str_eq(flag, "--out-dir");
        if !takes_value {
            return Err(MissionArgsError::UnknownArgument(flag.to_string()));
        }
        if i + 1 >= args.len() {
            return Err(MissionArgsError::MissingValue);
        }
        let value = args[i + 1].as_str();
        assert(rest.drop_first()[0] == args@[i + 1]@);
        assert(rest.drop_first().drop_first() =~= all.subrange(i + 2, all.len() as int));
        if str_eq(flag, "--repo-root") {
            acc.repo_root = value.to_string();
        } else if str_eq(flag, "--profile") {
            acc.profile = value.to_string();
        } else if str_eq(flag, "--mission-input") {
            acc.mission_input = value.to_string();
        } else {
            acc.out_dir = value.to_string();
        }
        i = i + 2;
    }
    assert(all.subrange(i as int, all.len() as int) =~= Seq::<Seq<char>>::empty());
    if acc.profile.unicode_len() == 0 || acc.mission_input.unicode_len() == 0 || acc.out_dir.unicode_len() == 0 {
        return Err(MissionArgsError::Usage);
    }
    Ok(acc)
}

pub open spec fn mission_args_error_message(e: MissionArgsError) -> Seq<char> {
    match e {
        MissionArgsError::MissingCommand => "missing command"@,
        MissionArgsError::UnsupportedCommand(c) => "unsupported command "@ + c@,
        MissionArgsError::MissingValue => "missing value"@,
        MissionArgsError::UnknownArgument(a) => "unknown argument "@ + a@,
        MissionArgsError::Usage =>
            "usage: run-mission --profile <p> --mission-input <json> --out-dir <path> [--repo-root <path>]"@,
    }
}

impl MissionArgsError {
    /// The error's message.
    pub fn message(&self) -> (r: String)
        ensures
            r@ == mission_args_error_message(*self),
    {
        match self {
            MissionArgsError::MissingCommand => "missing command".to_string(),
            MissionArgsError::UnsupportedCommand(c) => concat_str("unsupported command ", c.as_str()),
            MissionArgsError::MissingValue => "missing value".to_string(),
            MissionArgsError::UnknownArgument(a) => concat_str("unknown argument ", a.as_str()),
            MissionArgsError::Usage =>
                "usage: run-mission --profile <p> --mission-input <json> --out-dir <path> [--repo-root <path>]".to_string(),
        }
    }
}

/// A mission input written for a different profile than the one asked for.
pub fn check_mission_profile(input_profile: &str, profile: &str) -> (r: Result<(), String>)
    ensures
        input_profile@ == profile@ ==> r is Ok,
        input_profile@ != profile@ ==> (r matches Err(m)
            && m@ == "mission profile mismatch: input "@ + input_profile@ + ", arg "@ + profile@),
{
    if str_eq(input_profile, profile) {
        Ok(())
    } else {
        let a = concat_str("mission profile mismatch: input ", input_profile);
        let b = concat_str(a.as_str(), ", arg ");
        Err(concat_str(b.as_str(), profile))
    }
}

/// The names of the files a mission writes into its output directory.
pub struct MissionArtifactNames {
    pub signed_log: String,
    pub incident_initial: String,
    pub incident_pack: String,
    pub summary: String,
    pub trace: String,
}

fn artifact_name(prefix: &str, mission_id: &str) -> (r: String)
    ensures
        r@ == prefix@ + mission_id@ + ".json"@,
{
    let a = concat_str(prefix, mission_id);
    concat_str(a.as_str(), ".json")
}

/// `<kind>-<mission id>.json` for each artifact of a mission.
pub fn artifact_names(mission_id: &str) -> (r: MissionArtifactNames)
    ensures
        r.signed_log@ == "signed-operational-log-"@ + mission_id@ + ".json"@,
        r.incident_initial@ == "incident-initial-"@ + mission_id@ + ".json"@,
        r.incident_pack@ == "incident-pack-"@ + mission_id@ + ".json"@,
        r.summary@ == "mission-summary-"@ + mission_id@ + ".json"@,
        r.trace@ == "operational-trace-"@ + mission_id@ + ".json"@,
{
    MissionArtifactNames {
        signed_log: artifact_name("signed-operational-log-", mission_id),
        incident_initial: artifact_name("incident-initial-", mission_id),
        incident_pack: artifact_name("incident-pack-", mission_id),
        summary: artifact_name("mission-summary-", mission_id),
        trace: artifact_name("operational-trace-", mission_id),
    }
}

/// The system identifier of a mission's incident report: `sys:<profile>:<mission id>`.
pub fn incident_system_id(profile: &str, mission_id: &str) -> (r: String)
    ensures
        r@ == "sys:"@ + profile@ + ":"@ + mission_id@,
{
    let a = concat_str("sys:", profile);
    let b = concat_str(a.as_str(), ":");
    concat_str(b.as_str(), mission_id)
}

} // verus!

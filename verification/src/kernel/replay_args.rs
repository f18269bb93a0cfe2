//! Command-line arguments of the replay-drift validator.
use vstd::prelude::*;
use vstd::string::*;

use crate::text::{str_eq, strings_view, trim_str, trimmed};

verus! {

/// The validator's settings.
pub struct ReplayArgs {
    pub repo_root: String,
    pub profiles: Vec<String>,
    pub vectors_dir: String,
    pub fixtures_dir: String,
    pub output: String,
    pub update_fixtures: bool,
}

/// Why the arguments could not be read.
pub enum ArgsError {
    /// A flag that takes a value came last; holds the flag.
    MissingValue(String),
    /// An argument the validator does not know.
    UnknownArgument(String),
    /// `--help` or `-h` was given: print the usage and stop.
    HelpRequested,
}

/// The settings as plain values.
pub struct ArgsModel {
    pub repo_root: Seq<char>,
    pub profiles: Seq<Seq<char>>,
    pub vectors_dir: Seq<char>,
    pub fixtures_dir: Seq<char>,
    pub output: Seq<char>,
    pub update_fixtures: bool,
}

/// The outcome of reading the arguments, as plain values.
pub enum ArgsOutcome {
    Parsed(ArgsModel),
    MissingValue(Seq<char>),
    UnknownArgument(Seq<char>),
    HelpRequested,
}

/// `s` cut at every `sep`, as `str::split` cuts it (an empty string gives one empty piece).
pub open spec fn split_on(s: Seq<char>, sep: char) -> Seq<Seq<char>>
    decreases s.len(),
{
    if s.len() == 0 {
        seq![Seq::<char>::empty()]
    } else {
        let p = split_on(s.drop_last(), sep);
        if s.last() == sep {
            p.push(Seq::<char>::empty())
        } else {
            p.update(p.len() - 1, p.last().push(s.last()))
        }
    }
}

/// The trimmed pieces that are not empty, in order.
pub open spec fn nonempty_trimmed(pieces: Seq<Seq<char>>) -> Seq<Seq<char>>
    decreases pieces.len(),
{
    if pieces.len() == 0 {
        Seq::empty()
    } else {
        let p = nonempty_trimmed(pieces.drop_last());
        let t = trimmed(pieces.last());
        if t.len() > 0 {
            p.push(t)
        } else {
            p
        }
    }
}

/// The profile list of a `--profiles` value: comma separated, trimmed, empty items dropped.
pub open spec fn spec_profile_list(value: Seq<char>) -> Seq<Seq<char>> {
    nonempty_trimmed(split_on(value, ','))
}

pub open spec fn default_model() -> ArgsModel {
    ArgsModel {
        repo_root: "."@,
        profiles: seq!["uas-small"@, "fixed-wing"@, "hybrid-vtol"@],
        vectors_dir: "conformance/vectors"@,
        fixtures_dir: "conformance/fixtures"@,
        output: "conformance/reports/replay-drift.json"@,
        update_fixtures: false,
    }
}

/// Reads the arguments left to right on top of the settings `acc`.
pub open spec fn parse_from(args: Seq<Seq<char>>, acc: ArgsModel) -> ArgsOutcome
    decreases args.len(),
{
    if args.len() == 0 {
        ArgsOutcome::Parsed(acc)
    } else {
        let flag = args[0];
        let rest = args.drop_first();
        if flag == "--repo-root"@ || flag == "--profiles"@ || flag == "--vectors-dir"@
            || flag == "--fixtures-dir"@ || flag == "--output"@ {
            if rest.len() == 0 {
                ArgsOutcome::MissingValue(flag)
            } else {
                let value = rest[0];
                let next = if flag == "--repo-root"@ {
                    ArgsModel { repo_root: value, ..acc }
                } else if flag == "--profiles"@ {
                    ArgsModel { profiles: spec_profile_list(value), ..acc }
                } else if flag == "--vectors-dir"@ {
                    ArgsModel { vectors_dir: value, ..acc }
                } else if flag == "--fixtures-dir"@ {
                    ArgsModel { fixtures_dir: value, ..acc }
                } else {
                    ArgsModel { output: value, ..acc }
                };
                parse_from(rest.drop_first(), next)
            }
        } else if flag == "--update-fixtures"@ {
            parse_from(rest, ArgsModel { update_fixtures: true, ..acc })
        } else if flag == "--help"@ || flag == "-h"@ {
            ArgsOutcome::HelpRequested
        } else {
            ArgsOutcome::UnknownArgument(flag)
        }
    }
}

pub open spec fn args_model(a: ReplayArgs) -> ArgsModel {
    ArgsModel {
        repo_root: a.repo_root@,
        profiles: strings_view(a.profiles@),
        vectors_dir: a.vectors_dir@,
        fixtures_dir: a.fixtures_dir@,
        output: a.output@,
        update_fixtures: a.update_fixtures,
    }
}

pub open spec fn outcome_of(r: Result<ReplayArgs, ArgsError>) -> ArgsOutcome {
    match r {
        Ok(a) => ArgsOutcome::Parsed(args_model(a)),
        Err(ArgsError::MissingValue(f)) => ArgsOutcome::MissingValue(f@),
        Err(ArgsError::UnknownArgument(a)) => ArgsOutcome::UnknownArgument(a@),
        Err(ArgsError::HelpRequested) => ArgsOutcome::HelpRequested,
    }
}

proof fn lemma_split_nonempty(s: Seq<char>, sep: char)
    ensures
        split_on(s, sep).len() >= 1,
    decreases s.len(),
{
    if s.len() > 0 {
        lemma_split_nonempty(s.drop_last(), sep);
    }
}

/// Splits `value` at commas, trims each piece and keeps the pieces that are not empty.
pub fn profile_list(value: &str) -> (r: Vec<String>)
    ensures
        strings_view(r@) == spec_profile_list(value@),
{
    let n = value.unicode_len();
    let mut pieces: Vec<String> = Vec::new();
    let mut cur = String::new();
    let mut i: usize = 0;
    proof {
        assert(value@.subrange(0, 0) =~= Seq::<char>::empty());
    }
    while i < n
        invariant
            n == value@.len(),
            i <= n,
            strings_view(pieces@).push(cur@) == split_on(value@.subrange(0, i as int), ','),
        decreases n - i,
    {
        let c = value.get_char(i);
        let ghost prefix = value@.subrange(0, i as int);
        let ghost next = value@.subrange(0, i + 1);
        proof {
            assert(next.drop_last() =~= prefix);
            assert(next.last() == c);
            lemma_split_nonempty(prefix, ',');
        }
        if c == ',' {
            let done = cur;
            pieces.push(done);
            cur = String::new();
            assert(strings_view(pieces@).push(cur@) =~= split_on(next, ','));
        } else {
            let ghost before = cur@;
            cur.append(value.substring_char(i, i + 1));
            assert(strings_view(pieces@).push(cur@) =~= split_on(next, ',')) by {
                let p = split_on(prefix, ',');
                assert(p.last() == before);
                assert(cur@ =~= before.push(c));
            }
        }
        i = i + 1;
    }
    pieces.push(cur);
    assert(value@.subrange(0, n as int) =~= value@);
    let ghost all = strings_view(pieces@);
    assert(all == split_on(value@, ','));
    let mut out: Vec<String> = Vec::new();
    let mut k: usize = 0;
    while k < pieces.len()
        invariant
            k <= pieces.len(),
            all == strings_view(pieces@),
            strings_view(out@) == nonempty_trimmed(all.subrange(0, k as int)),
        decreases pieces.len() - k,
    {
        let t = trim_str(pieces[k].as_str());
        let ghost sub = all.subrange(0, k + 1);
        assert(sub.drop_last() =~= all.subrange(0, k as int));
        assert(sub.last() == pieces@[k as int]@);
        if t.unicode_len() > 0 {
            out.push(t);
        }
        assert(strings_view(out@) =~= nonempty_trimmed(sub));
        k = k + 1;
    }
    assert(all.subrange(0, pieces.len() as int) =~= all);
    out
}

/// The settings before any argument: repository `.`, all three profiles, the conformance
/// vector, fixture and report locations, no fixture update.
pub fn default_args() -> (r: ReplayArgs)
    ensures
        args_model(r) == default_model(),
{
    let mut profiles: Vec<String> = Vec::new();
    profiles.push("uas-small".to_owned());
    profiles.push("fixed-wing".to_owned());
    profiles.push("hybrid-vtol".to_owned());
    let r = ReplayArgs {
        repo_root: ".".to_owned(),
        profiles,
        vectors_dir: "conformance/vectors".to_owned(),
        fixtures_dir: "conformance/fixtures".to_owned(),
        output: "conformance/reports/replay-drift.json".to_owned(),
        update_fixtures: false,
    };
    assert(args_model(r).profiles =~= default_model().profiles);
    r
}

/// Reads the validator's arguments (the program name excluded): `--repo-root`, `--profiles`,
/// `--vectors-dir`, `--fixtures-dir` and `--output` take a value, `--update-fixtures` is a
/// switch, `--help`/`-h` asks for the usage, anything else is refused.
pub fn parse_args_from(args: &Vec<String>) -> (r: Result<ReplayArgs, ArgsError>)
    ensures
        outcome_of(r) == parse_from(strings_view(args@), default_model()),
{
    let ghost all = strings_view(args@);
    let mut acc = default_args();
    let mut i: usize = 0;
    proof {
        assert(all.subrange(0, all.len() as int) =~= all);
    }
    while i < args.len()
        invariant
            i <= args.len(),
            all == strings_view(args@),
            parse_from(all, default_model()) == parse_from(all.subrange(i as int, all.len() as int), args_model(acc)),
        decreases args.len() - i,
    {
        let ghost rest = all.subrange(i as int, all.len() as int);
        assert(rest[0] == args@[i as int]@);
        assert(rest.drop_first() =~= all.subrange(i + 1, all.len() as int));
        let flag = args[i].as_str();
        let takes_value = str_eq(flag, "--repo-root") || str_eq(flag, "--profiles") || str_eq(flag, "--vectors-dir")
            || str_eq(flag, "--fixtures-dir") || str_eq(flag, "--output");
        if takes_value {
            if i + 1 >= args.len() {
                return Err(ArgsError::MissingValue(flag.to_owned()));
            }
            let value = args[i + 1].as_str();
            assert(rest.drop_first()[0] == args@[i + 1]@);
            assert(rest.drop_first().drop_first() =~= all.subrange(i + 2, all.len() as int));
            if str_eq(flag, "--repo-root") {
                acc.repo_root = value.to_owned();
            } else if str_eq(flag, "--profiles") {
                acc.profiles = profile_list(value);
            } else if str_eq(flag, "--vectors-dir") {
                acc.vectors_dir = value.to_owned();
            } else if str_eq(flag, "--fixtures-dir") {
                acc.fixtures_dir = value.to_owned();
            } else {
                acc.output = value.to_owned();
            }
            i = i + 2;
        } else if str_eq(flag, "--update-fixtures") {
            acc.update_fixtures = true;
            i = i + 1;
        } else if str_eq(flag, "--help") || str_eq(flag, "-h") {
            return Err(ArgsError::HelpRequested);
        } else {
            return Err(ArgsError::UnknownArgument(flag.to_owned()));
        }
    }
    assert(all.subrange(i as int, all.len() as int) =~= Seq::<Seq<char>>::empty());
    Ok(acc)
}

/// The usage line of the validator.
pub fn usage() -> (r: String)
    ensures
        r@ == "usage: replay-drift-validator [--repo-root <path>] [--profiles <csv>] [--vectors-dir <path>] [--fixtures-dir <path>] [--output <path>] [--update-fixtures]"@,
{
    "usage: replay-drift-validator [--repo-root <path>] [--profiles <csv>] [--vectors-dir <path>] [--fixtures-dir <path>] [--output <path>] [--update-fixtures]".to_owned()
}

pub open spec fn args_error_message(e: ArgsError) -> Seq<char> {
    match e {
        ArgsError::MissingValue(f) => "missing value for "@ + f@,
        ArgsError::UnknownArgument(a) => "unknown argument "@ + a@,
        ArgsError::HelpRequested => "help requested"@,
    }
}

impl ArgsError {
    /// The error's message.
    pub fn message(&self) -> (r: String)
        ensures
            r@ == args_error_message(*self),
    {
        match self {
            ArgsError::MissingValue(f) => "missing value for ".to_owned().concat(f.as_str()),
            ArgsError::UnknownArgument(a) => "unknown argument ".to_owned().concat(a.as_str()),
            ArgsError::HelpRequested => "help requested".to_owned(),
        }
    }
}

} // verus!

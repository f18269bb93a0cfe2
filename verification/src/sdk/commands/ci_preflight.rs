//! `tasc ci-preflight`.
use vstd::prelude::*;
use vstd::string::*;

use crate::sdk::{format_name, CiPreflightRequest, OutputFormat, SdkError};
use crate::text::{flag_switch, flag_value, push_flag_switch, push_flag_value, push_text, strings_view};

verus! {

/// `--examples` followed by every example, when examples are given.
pub open spec fn examples_args(examples: Option<Vec<String>>) -> Seq<Seq<char>> {
    match examples {
        Some(list) => seq!["--examples"@] + strings_view(list@),
        None => Seq::empty(),
    }
}

/// The `tasc` arguments of a CI preflight request.
pub open spec fn ci_preflight_args(request: CiPreflightRequest) -> Seq<Seq<char>> {
    seq!["ci-preflight"@] + examples_args(request.examples) + seq!["--format"@, format_name(request.format)]
        + flag_switch("--strict"@, request.strict) + flag_value("--output"@, request.output) + flag_value(
        "--profile-bundle"@,
        request.profile_bundle,
    ) + flag_value("--trust-mode"@, request.trust_mode)
}

/// The `tasc` arguments of a CI preflight request; SARIF output is not supported.
pub fn build_args(request: &CiPreflightRequest) -> (r: Result<Vec<String>, SdkError>)
    ensures
        request.format == OutputFormat::Sarif ==> (r matches Err(SdkError::UnsupportedFormat(f))
            && f == OutputFormat::Sarif),
        request.format != OutputFormat::Sarif ==> (r matches Ok(args) && strings_view(args@)
            == ci_preflight_args(*request)),
{
    if request.format == OutputFormat::Sarif {
        return Err(SdkError::UnsupportedFormat(request.format));
    }
    let mut args: Vec<String> = Vec::new();
    assert(strings_view(args@) =~= Seq::<Seq<char>>::empty());
    push_text(&mut args, "ci-preflight");
    match &request.examples {
        Some(examples) => {
            push_text(&mut args, "--examples");
            let ghost start = strings_view(args@);
            let mut i: usize = 0;
            while i < examples.len()
                invariant
                    i <= examples.len(),
                    strings_view(args@) == start + strings_view(examples@.subrange(0, i as int)),
                decreases examples.len() - i,
            {
                push_text(&mut args, examples[i].as_str());
                assert(strings_view(examples@.subrange(0, i + 1)) =~= strings_view(examples@.subrange(0, i as int)).push(
                    examples@[i as int]@,
                ));
                assert(strings_view(args@) =~= start + strings_view(examples@.subrange(0, i + 1)));
                i = i + 1;
            }
            assert(examples@.subrange(0, examples.len() as int) =~= examples@);
        },
        None => {},
    }
    let ghost mid = strings_view(args@);
    assert(mid =~= seq!["ci-preflight"@] + examples_args(request.examples));
    push_text(&mut args, "--format");
    push_text(&mut args, request.format.as_str());
    push_flag_switch(&mut args, "--strict", request.strict);
    push_flag_value(&mut args, "--output", &request.output);
    push_flag_value(&mut args, "--profile-bundle", &request.profile_bundle);
    push_flag_value(&mut args, "--trust-mode", &request.trust_mode);
    assert(strings_view(args@) =~= ci_preflight_args(*request));
    Ok(args)
}

} // verus!

//! `tasc verify`.
use vstd::prelude::*;
use vstd::string::*;

use crate::sdk::{format_name, SdkError, VerifyRequest};
use crate::text::{flag_value, push_flag_value, push_text, strings_view};

verus! {

/// The `tasc` arguments of a verify request.
pub open spec fn verify_args(request: VerifyRequest) -> Seq<Seq<char>> {
    seq!["verify"@, request.target_path@] + flag_value("--profile-bundle"@, request.profile_bundle) + flag_value(
        "--trust-mode"@,
        request.trust_mode,
    ) + seq!["--format"@, format_name(request.format)]
}

/// The `tasc` arguments of a verify request.
pub fn build_args(request: &VerifyRequest) -> (r: Result<Vec<String>, SdkError>)
    ensures
        r matches Ok(args) && strings_view(args@) == verify_args(*request),
{
    let mut args: Vec<String> = Vec::new();
    assert(strings_view(args@) =~= Seq::<Seq<char>>::empty());
    push_text(&mut args, "verify");
    push_text(&mut args, request.target_path.as_str());
    push_flag_value(&mut args, "--profile-bundle", &request.profile_bundle);
    push_flag_value(&mut args, "--trust-mode", &request.trust_mode);
    push_text(&mut args, "--format");
    push_text(&mut args, request.format.as_str());
    assert(strings_view(args@) =~= verify_args(*request));
    Ok(args)
}

} // verus!

//! `tasc support-bundle`.
use vstd::prelude::*;
use vstd::string::*;

use crate::sdk::{SdkError, SupportBundleRequest};
use crate::text::{flag_switch, flag_value, push_flag_switch, push_flag_value, push_text, strings_view};

verus! {

/// The `tasc` arguments of a support-bundle request: the target path, or `.`.
pub open spec fn support_bundle_args(request: SupportBundleRequest) -> Seq<Seq<char>> {
    let target = match request.target_path {
        Some(p) => p@,
        None => "."@,
    };
    seq!["support-bundle"@, target] + flag_switch("--archive"@, request.archive) + flag_value(
        "--output"@,
        request.output,
    ) + flag_switch("--redact"@, request.redact)
}

/// The `tasc` arguments of a support-bundle request.
pub fn build_args(request: &SupportBundleRequest) -> (r: Result<Vec<String>, SdkError>)
    ensures
        r matches Ok(args) && strings_view(args@) == support_bundle_args(*request),
{
    let mut args: Vec<String> = Vec::new();
    assert(strings_view(args@) =~= Seq::<Seq<char>>::empty());
    push_text(&mut args, "support-bundle");
    match &request.target_path {
        Some(p) => push_text(&mut args, p.as_str()),
        None => push_text(&mut args, "."),
    }
    push_flag_switch(&mut args, "--archive", request.archive);
    push_flag_value(&mut args, "--output", &request.output);
    push_flag_switch(&mut args, "--redact", request.redact);
    assert(strings_view(args@) =~= support_bundle_args(*request));
    Ok(args)
}

} // verus!

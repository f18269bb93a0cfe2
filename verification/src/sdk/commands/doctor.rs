//! `tasc doctor`.
use vstd::prelude::*;
use vstd::string::*;

use crate::sdk::{format_name, DoctorRequest, OutputFormat, SdkError};
use crate::text::{flag_value, push_flag_value, push_text, strings_view};

verus! {

/// The `tasc` arguments of a doctor request.
pub open spec fn doctor_args(request: DoctorRequest) -> Seq<Seq<char>> {
    seq!["doctor"@] + flag_value("--operation"@, request.operation) + flag_value(
        "--profile-bundle"@,
        request.profile_bundle,
    ) + flag_value("--trust-mode"@, request.trust_mode) + seq!["--format"@, format_name(request.format)]
}

/// The `tasc` arguments of a doctor request; SARIF output is not supported.
pub fn build_args(request: &DoctorRequest) -> (r: Result<Vec<String>, SdkError>)
    ensures
        request.format == OutputFormat::Sarif ==> (r matches Err(SdkError::UnsupportedFormat(f))
            && f == OutputFormat::Sarif),
        request.format != OutputFormat::Sarif ==> (r matches Ok(args) && strings_view(args@) == doctor_args(
            *request,
        )),
{
    if request.format == OutputFormat::Sarif {
        return Err(SdkError::UnsupportedFormat(request.format));
    }
    let mut args: Vec<String> = Vec::new();
    assert(strings_view(args@) =~= Seq::<Seq<char>>::empty());
    push_text(&mut args, "doctor");
    push_flag_value(&mut args, "--operation", &request.operation);
    push_flag_value(&mut args, "--profile-bundle", &request.profile_bundle);
    push_flag_value(&mut args, "--trust-mode", &request.trust_mode);
    push_text(&mut args, "--format");
    push_text(&mut args, request.format.as_str());
    assert(strings_view(args@) =~= doctor_args(*request));
    Ok(args)
}

} // verus!

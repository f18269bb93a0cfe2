//! `tasc explain`.
use vstd::prelude::*;
use vstd::string::*;

use crate::sdk::{format_name, ExplainRequest, SdkError};
use crate::text::{flag_value, push_flag_value, push_text, strings_view};

verus! {

/// The `tasc` arguments of an explain request: the report path, or `last`.
pub open spec fn explain_args(request: ExplainRequest) -> Seq<Seq<char>> {
    let target = match request.report_path {
        Some(p) => p@,
        None => "last"@,
    };
    seq!["explain"@, target, "--format"@, format_name(request.format)] + flag_value("--renderer"@, request.renderer)
}

/// The `tasc` arguments of an explain request.
pub fn build_args(request: &ExplainRequest) -> (r: Result<Vec<String>, SdkError>)
    ensures
        r matches Ok(args) && strings_view(args@) == explain_args(*request),
{
    let mut args: Vec<String> = Vec::new();
    assert(strings_view(args@) =~= Seq::<Seq<char>>::empty());
    push_text(&mut args, "explain");
    match &request.report_path {
        Some(p) => push_text(&mut args, p.as_str()),
        None => push_text(&mut args, "last"),
    }
    push_text(&mut args, "--format");
    push_text(&mut args, request.format.as_str());
    push_flag_value(&mut args, "--renderer", &request.renderer);
    assert(strings_view(args@) =~= explain_args(*request));
    Ok(args)
}

} // verus!

//! The reference adapter: normalizes an operator envelope into a kernel intent envelope.
//!
//! The command vector's element type is a parameter; the adapter only carries the values.
use vstd::prelude::*;
use vstd::string::*;

use crate::text::str_eq;

verus! {

/// A command request as an adapter receives it.
pub struct AdapterEnvelope<T> {
    pub profile: String,
    pub mission_id: String,
    pub mode_request: String,
    pub command_vector: Vec<T>,
    pub authority_source: String,
}

/// The normalized intent that the kernel consumes.
pub struct KernelIntentEnvelope<T> {
    pub contract_version: String,
    pub profile: String,
    pub mission_id: String,
    pub mode_request: String,
    pub authority_source: String,
    pub command_vector: Vec<T>,
    pub timestamp_utc: String,
}

/// Why an envelope was rejected.
pub enum AdapterError {
    /// The envelope names an authority other than the safety kernel; holds that authority.
    NonKernelAuthority(String),
    /// The command vector is empty.
    EmptyCommandVector,
}

pub open spec fn error_message(e: AdapterError) -> Seq<char> {
    match e {
        AdapterError::NonKernelAuthority(a) => "authority_source must be safety_kernel, got "@ + a@,
        AdapterError::EmptyCommandVector => "command_vector cannot be empty"@,
    }
}

impl AdapterError {
    /// The error's message.
    pub fn message(&self) -> (r: String)
        ensures
            r@ == error_message(*self),
    {
        match self {
            AdapterError::NonKernelAuthority(a) => {
                "authority_source must be safety_kernel, got ".to_owned().concat(a.as_str())
            },
            AdapterError::EmptyCommandVector => "command_vector cannot be empty".to_owned(),
        }
    }
}

/// The default authority of an envelope that names none.
pub fn default_authority() -> (r: String)
    ensures
        r@ == "safety_kernel"@,
{
    "safety_kernel".to_owned()
}

fn copy_values<T: Copy>(v: &Vec<T>) -> (r: Vec<T>)
    ensures
        r@ == v@,
{
    let mut r: Vec<T> = Vec::new();
    let mut i: usize = 0;
    while i < v.len()
        invariant
            i <= v.len(),
            r@ == v@.subrange(0, i as int),
        decreases v.len() - i,
    {
        r.push(v[i]);
        assert(r@ =~= v@.subrange(0, i + 1));
        i = i + 1;
    }
    assert(v@.subrange(0, v.len() as int) =~= v@);
    r
}

/// Accepts an envelope only from the safety kernel and with a non-empty command vector, and
/// stamps it with contract version 1.0.0 and `timestamp_utc`.
pub fn normalize_to_kernel_intent<T: Copy>(
    payload: &AdapterEnvelope<T>,
    timestamp_utc: String,
) -> (r: Result<KernelIntentEnvelope<T>, AdapterError>)
    ensures
        payload.authority_source@ != "safety_kernel"@ ==> (r matches Err(AdapterError::NonKernelAuthority(a))
            && a@ == payload.authority_source@),
        payload.authority_source@ == "safety_kernel"@ && payload.command_vector@.len() == 0 ==> r matches Err(
            AdapterError::EmptyCommandVector,
        ),
        payload.authority_source@ == "safety_kernel"@ && payload.command_vector@.len() > 0 ==> (r matches Ok(k) && {
            &&& k.contract_version@ == "1.0.0"@
            &&& k.profile@ == payload.profile@
            &&& k.mission_id@ == payload.mission_id@
            &&& k.mode_request@ == payload.mode_request@
            &&& k.authority_source@ == payload.authority_source@
            &&& k.command_vector@ == payload.command_vector@
            &&& k.timestamp_utc@ == timestamp_utc@
        }),
{
    if !str_eq(payload.authority_source.as_str(), "safety_kernel") {
        return Err(AdapterError::NonKernelAuthority(payload.authority_source.clone()));
    }
    if payload.command_vector.len() == 0 {
        return Err(AdapterError::EmptyCommandVector);
    }
    Ok(KernelIntentEnvelope {
        contract_version: "1.0.0".to_owned(),
        profile: payload.profile.clone(),
        mission_id: payload.mission_id.clone(),
        mode_request: payload.mode_request.clone(),
        authority_source: payload.authority_source.clone(),
        command_vector: copy_values(&payload.command_vector),
        timestamp_utc,
    })
}

} // verus!

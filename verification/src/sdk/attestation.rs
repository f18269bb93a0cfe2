//! Sandbox attestation: a marker that a run used a non-production trust mode.
use vstd::prelude::*;
use vstd::string::*;

use crate::sdk::SdkError;
use crate::text::str_eq;

verus! {

/// The marker every sandbox attestation carries.
pub const NON_PRODUCTION_MARKER: &'static str = "NON_PRODUCTION";

/// A statement that a run happened outside production.
pub struct SandboxAttestation {
    pub marker: &'static str,
    pub trust_mode: Option<String>,
    pub evidence: String,
}

pub open spec fn is_production(trust_mode: Option<&str>) -> bool {
    trust_mode matches Some(m) && m@ == "prod-hsm"@
}

/// Refuses the production trust mode `prod-hsm`.
pub fn ensure_non_production(trust_mode: Option<&str>) -> (r: Result<(), SdkError>)
    ensures
        is_production(trust_mode) ==> (r matches Err(SdkError::InvalidConfig(m))
            && m@ == "sandbox attestation is not allowed with trust_mode=prod-hsm"@),
        !is_production(trust_mode) ==> r is Ok,
{
    match trust_mode {
        Some(mode) => {
            if str_eq(mode, "prod-hsm") {
                return Err(SdkError::InvalidConfig("sandbox attestation is not allowed with trust_mode=prod-hsm".to_owned()));
            }
            Ok(())
        },
        None => Ok(()),
    }
}

/// Attests a sandbox run in a non-production trust mode.
pub fn attest(trust_mode: Option<&str>) -> (r: Result<SandboxAttestation, SdkError>)
    ensures
        is_production(trust_mode) ==> (r matches Err(SdkError::InvalidConfig(m))
            && m@ == "sandbox attestation is not allowed with trust_mode=prod-hsm"@),
        !is_production(trust_mode) ==> (r matches Ok(a) && {
            &&& a.marker@ == NON_PRODUCTION_MARKER@
            &&& (a.trust_mode is Some <==> trust_mode is Some)
            &&& (trust_mode matches Some(m) ==> a.trust_mode->0@ == m@)
            &&& a.evidence@ == "sandbox-attestation"@
        }),
{
    match ensure_non_production(trust_mode) {
        Err(e) => return Err(e),
        Ok(()) => {},
    }
    let mode = match trust_mode {
        Some(m) => Some(m.to_owned()),
        None => None,
    };
    Ok(SandboxAttestation { marker: NON_PRODUCTION_MARKER, trust_mode: mode, evidence: "sandbox-attestation".to_owned() })
}

} // verus!

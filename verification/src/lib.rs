//! Verified core of the ASC safety-kernel reference stack and the TASC SDK:
//! verdict arbitration data, safety checks, the authority interlock, the
//! hash-chained event log, conformance replay assessment, and the SDK's
//! request, error, canonicalization and rendering logic.
pub mod text;
pub mod digest;
pub mod kernel;
pub mod casing;
pub mod sdk_types;
pub mod sdk;

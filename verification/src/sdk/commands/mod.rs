//! The `tasc` command line of each SDK operation.
pub mod ci_preflight;
pub mod demo;
pub mod doctor;
pub mod explain;
pub mod support_bundle;
pub mod verify;

//! Shared request, response, error and format types of the TASC SDK.
pub mod error;
pub mod format;
pub mod request;
pub mod response;

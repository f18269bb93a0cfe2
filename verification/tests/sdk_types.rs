use std::str::FromStr;

use asc_standard::sdk_types::error::{SdkError, SdkErrorCode};
use asc_standard::sdk_types::format::OutputFormat;

#[test]
fn maps_error_codes() {
    let errors = vec![
        (SdkError::Io(std::io::Error::new(std::io::ErrorKind::Other, "io")), SdkErrorCode::Io),
        (SdkError::RepoNotFound("/".to_string()), SdkErrorCode::RepoNotFound),
        (SdkError::TascNotFound("/tasc".to_string()), SdkErrorCode::TascNotFound),
        (SdkError::InvalidConfig("bad".into()), SdkErrorCode::InvalidConfig),
        (SdkError::CommandFailed { code: Some(2) }, SdkErrorCode::CommandFailed),
        (SdkError::Timeout { after_ms: 1000 }, SdkErrorCode::Timeout),
        (SdkError::ParseError("parse".into()), SdkErrorCode::ParseError),
        (SdkError::Canonicalization("canon".into()), SdkErrorCode::Canonicalization),
        (SdkError::UnsupportedFormat("sarif".into()), SdkErrorCode::UnsupportedFormat),
        (SdkError::Unknown("unknown".into()), SdkErrorCode::Unknown),
    ];

    for (error, expected) in errors {
        assert_eq!(error.code(), expected);
    }
}

#[test]
fn parses_error_codes() {
    assert_eq!(SdkErrorCode::from_str("io").unwrap(), SdkErrorCode::Io);
    assert_eq!(SdkErrorCode::from_str(" REPO_NOT_FOUND ").unwrap(), SdkErrorCode::RepoNotFound);
    assert_eq!(SdkErrorCode::from_str("repo-not-found").unwrap(), SdkErrorCode::RepoNotFound);
}

#[test]
fn rejects_invalid_error_code() {
    let err = SdkErrorCode::from_str("not-a-code").expect_err("should fail");
    assert!(err.message().contains("unsupported"));
    assert_eq!(err.value(), "not_a_code");
}

#[test]
fn error_code_names_round_trip() {
    for code in [
        SdkErrorCode::Io,
        SdkErrorCode::RepoNotFound,
        SdkErrorCode::TascNotFound,
        SdkErrorCode::InvalidConfig,
        SdkErrorCode::CommandFailed,
        SdkErrorCode::Timeout,
        SdkErrorCode::ParseError,
        SdkErrorCode::Canonicalization,
        SdkErrorCode::UnsupportedFormat,
        SdkErrorCode::Unknown,
    ] {
        assert_eq!(SdkErrorCode::from_str(code.as_str()).unwrap(), code);
    }
    assert_eq!(SdkErrorCode::Timeout.as_str(), "timeout");
    assert_eq!(SdkErrorCode::from_str("Command-Failed").unwrap(), SdkErrorCode::CommandFailed);
    assert_eq!(SdkErrorCode::from_str(" UNSUPPORTED-FORMAT ").unwrap(), SdkErrorCode::UnsupportedFormat);
}

#[test]
fn parses_output_formats() {
    assert_eq!(OutputFormat::from_str("human").unwrap(), OutputFormat::Human);
    assert_eq!(OutputFormat::from_str("json").unwrap(), OutputFormat::Json);
    assert_eq!(OutputFormat::from_str("sarif").unwrap(), OutputFormat::Sarif);
    assert_eq!(OutputFormat::from_str(" JSON ").unwrap(), OutputFormat::Json);
}

#[test]
fn rejects_invalid_format() {
    let err = OutputFormat::from_str("xml").expect_err("should fail");
    assert!(err.message().contains("unsupported"));
    assert_eq!(err.value(), "xml");
}

#[test]
fn format_names_round_trip() {
    assert_eq!(OutputFormat::Human.as_str(), "human");
    for f in [OutputFormat::Human, OutputFormat::Json, OutputFormat::Sarif] {
        assert_eq!(OutputFormat::from_str(f.as_str()).unwrap(), f);
    }
    assert_eq!(OutputFormat::from_str("\tSarif\n").unwrap(), OutputFormat::Sarif);
    assert_eq!(OutputFormat::from_str("HUMAN").unwrap(), OutputFormat::Human);
    assert_eq!(OutputFormat::from_str("Xml ").expect_err("refused").message(), "unsupported output format: xml");
}

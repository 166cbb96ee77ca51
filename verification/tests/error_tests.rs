use testlist::error::Error;

#[test]
fn test_error_display_io() {
    let err = Error::Io("file not found".to_string());
    let display = err.message();
    assert!(display.contains("IO error"));
}

#[test]
fn test_error_display_testlist_not_found() {
    let err = Error::TestlistNotFound("/path/to/test.ron".to_string());
    let display = err.message();
    assert!(display.contains("Testlist file not found"));
    assert!(display.contains("/path/to/test.ron"));
}

#[test]
fn test_error_display_invalid_test_id() {
    let err = Error::InvalidTestId("bad-id".to_string());
    let display = err.message();
    assert!(display.contains("Invalid test ID"));
    assert!(display.contains("bad-id"));
}

#[test]
fn test_error_display_results_not_found() {
    let err = Error::ResultsNotFound("/results.ron".to_string());
    let display = err.message();
    assert!(display.contains("Results file not found"));
}

#[test]
fn error_messages_carry_the_detail() {
    assert_eq!(Error::Io("access denied".to_string()).message(), "IO error: access denied");
    assert_eq!(
        Error::Parse("expected struct".to_string()).message(),
        "Failed to parse RON file: expected struct"
    );
    assert_eq!(
        Error::Serialize("bad value".to_string()).message(),
        "Failed to serialize RON: bad value"
    );
}

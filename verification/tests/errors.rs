use jwt_lookup::errors::{Disposition, Error, ErrorKind};

#[test]
fn test_error_rendering() {
    assert_eq!(
        "InvalidAlgorithmName",
        Error::from(ErrorKind::InvalidAlgorithmName).to_string()
    );
}

#[test]
fn error_from_kind_has_that_kind_and_no_detail() {
    let e = Error::from(ErrorKind::MissingField);
    assert_eq!(*e.kind(), ErrorKind::MissingField);
    assert_eq!(e.detail(), None);
    assert_eq!(e.into_kind(), ErrorKind::MissingField);
}

#[test]
fn error_with_detail_renders_label_and_detail() {
    let e = Error::with_detail(ErrorKind::StoreCommandError, String::from("connection reset"));
    assert_eq!(*e.kind(), ErrorKind::StoreCommandError);
    assert_eq!(e.detail(), Some("connection reset"));
    assert_eq!(e.to_string(), "Error executing redis command: connection reset");
}

#[test]
fn every_kind_has_its_label() {
    assert_eq!(Error::from(ErrorKind::InvalidTokenShape).to_string(), "InvalidTokenShape");
    assert_eq!(Error::from(ErrorKind::MissingField).to_string(), "MissingField");
    assert_eq!(ErrorKind::EncodingError.label(), "Encoding error");
    assert_eq!(ErrorKind::FormatError.label(), "Format error");
    assert_eq!(
        ErrorKind::PoolExhausted.label(),
        "Could not get redis connection from pool"
    );
    assert_eq!(ErrorKind::StoreClientError.label(), "Error creating Redis client");
    assert_eq!(
        Error::with_detail(ErrorKind::PoolExhausted, String::from("Time out in the connection pool"))
            .to_string(),
        "Could not get redis connection from pool: Time out in the connection pool"
    );
}

#[test]
fn decode_path_errors_are_unauthorized() {
    for kind in [
        ErrorKind::InvalidTokenShape,
        ErrorKind::EncodingError,
        ErrorKind::FormatError,
        ErrorKind::InvalidAlgorithmName,
        ErrorKind::MissingField,
    ] {
        assert_eq!(kind.disposition(), Disposition::Unauthorized);
    }
}

#[test]
fn store_errors_are_service_failures() {
    for kind in [
        ErrorKind::PoolExhausted,
        ErrorKind::StoreClientError,
        ErrorKind::StoreCommandError,
    ] {
        assert_eq!(kind.disposition(), Disposition::ServiceFailure);
    }
}

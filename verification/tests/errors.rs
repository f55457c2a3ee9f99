//! Errors: how a native failure is classified, and how each kind reads.

use osrm::{Error, ErrorKind};

#[test]
fn no_route_code_is_normalized() {
    let error = Error::from_native("NoRoute".to_string(), "Impossible route between points".to_string());
    assert_eq!(error.kind(), ErrorKind::NoRoute);
    assert_eq!(error.describe(), "osrm-rs: Impossible route between points");
}

#[test]
fn invalid_value_code_is_normalized() {
    let error = Error::from_native("InvalidValue".to_string(), "whatever".to_string());
    assert_eq!(error.kind(), ErrorKind::InvalidCoordinate);
    assert_eq!(error.describe(), "osrm-rs: Invalid coordinate value");
}

#[test]
fn other_codes_are_kept_verbatim() {
    for code in ["", "noroute", "NoRoute ", "InvalidOptions", "InvalidValues", "Exception"] {
        let error = Error::from_native(code.to_string(), "m".to_string());
        assert_eq!(error.kind(), ErrorKind::Osrmc { code: code.to_string(), message: "m".to_string() });
    }
    let error = Error::from_native("InvalidOptions".to_string(), "Bad option".to_string());
    assert_eq!(error.kind().describe(), "Osrmc: InvalidOptions: Bad option");
    assert_eq!(error.describe(), "osrm-rs: Osrmc: InvalidOptions: Bad option");
}

#[test]
fn message_errors_read_as_their_text() {
    let error = Error::from("sources/destinations can not be empty".to_string());
    assert_eq!(error.kind(), ErrorKind::Message("sources/destinations can not be empty".to_string()));
    assert_eq!(error.describe(), "osrm-rs: sources/destinations can not be empty");
    assert_eq!(error, Error::message("sources/destinations can not be empty"));
    assert_eq!(Error::from_kind(ErrorKind::NoRoute).kind(), ErrorKind::NoRoute);
}

#[test]
fn nul_errors_name_the_position_in_decimal() {
    for (position, digits) in [(0usize, "0"), (7, "7"), (10, "10"), (99, "99"), (100, "100"), (4096, "4096"), (1234567890, "1234567890")] {
        let error = Error::from_nul(position);
        assert_eq!(error.kind(), ErrorKind::FfiNul { position });
        assert_eq!(
            error.describe(),
            format!("osrm-rs: nul byte found in provided data at position: {}", digits)
        );
    }
}

#[test]
fn kinds_clone_to_equal_kinds() {
    let kinds = vec![
        ErrorKind::Message("m".to_string()),
        ErrorKind::Osrmc { code: "c".to_string(), message: "m".to_string() },
        ErrorKind::NoRoute,
        ErrorKind::InvalidCoordinate,
        ErrorKind::FfiNul { position: 3 },
    ];
    for kind in kinds {
        assert_eq!(kind.clone(), kind);
    }
}

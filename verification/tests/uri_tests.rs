//! Connection URI decisions, with and without the `http` parser in front.

use modbus_ext::uri::{
    default_port_for_proto, modbus_uri_from_parts, ModbusUri, Proto, UriError,
};

#[test]
fn default_ports() {
    assert_eq!(default_port_for_proto(Proto::Tcp), 502);
    assert_eq!(default_port_for_proto(Proto::Rtu), 9600);
}

#[test]
fn from_parts_accepts_tcp_with_port() {
    let u = modbus_uri_from_parts(
        Some("tcp".to_owned()),
        Some("localhost".to_owned()),
        Some(1502),
        "tcp://localhost:1502".to_owned(),
    )
    .unwrap();
    assert_eq!(u.proto, Proto::Tcp);
    assert_eq!(u.host, "localhost");
    assert_eq!(u.port, 1502);
}

#[test]
fn from_parts_defaults_missing_port() {
    let u = modbus_uri_from_parts(
        Some("tcp".to_owned()),
        Some("h".to_owned()),
        None,
        "tcp://h".to_owned(),
    )
    .unwrap();
    assert_eq!(u.port, 502);
    let u = modbus_uri_from_parts(
        Some("rtu".to_owned()),
        Some("ttyUSB0".to_owned()),
        None,
        "rtu://ttyUSB0".to_owned(),
    )
    .unwrap();
    assert_eq!(u.proto, Proto::Rtu);
    assert_eq!(u.port, 9600);
}

#[test]
fn from_parts_rejects_missing_scheme() {
    let r = modbus_uri_from_parts(None, Some("h".to_owned()), None, "h".to_owned());
    match r {
        Err(UriError::Missing(m)) => {
            assert_eq!(m.uri, "h");
            assert_eq!(m.missing, "scheme");
        },
        other => panic!("expected a missing-scheme error, got {:?}", other),
    }
}

#[test]
fn from_parts_rejects_unknown_scheme() {
    let r = modbus_uri_from_parts(
        Some("http".to_owned()),
        Some("h".to_owned()),
        None,
        "http://h".to_owned(),
    );
    match r {
        Err(UriError::Scheme(e)) => assert_eq!(e.scheme, "http"),
        other => panic!("expected an invalid-scheme error, got {:?}", other),
    }
}

#[test]
fn from_parts_rejects_missing_host() {
    let r = modbus_uri_from_parts(Some("tcp".to_owned()), None, None, "tcp:".to_owned());
    match r {
        Err(UriError::Missing(m)) => assert_eq!(m.missing, "host"),
        other => panic!("expected a missing-host error, got {:?}", other),
    }
}

#[test]
fn parse_full_tcp_uri() {
    let u: ModbusUri = "tcp://127.0.0.1:502".parse().unwrap();
    assert_eq!(u.proto, Proto::Tcp);
    assert_eq!(u.host, "127.0.0.1");
    assert_eq!(u.port, 502);
    assert_eq!(u.port_u32(), 502);
}

#[test]
fn parse_tcp_uri_without_port() {
    let u: ModbusUri = "tcp://device.local".parse().unwrap();
    assert_eq!(u.port, 502);
}

#[test]
fn parse_rtu_uri_with_bitrate() {
    let u: ModbusUri = "rtu://ttyUSB0:19200".parse().unwrap();
    assert_eq!(u.proto, Proto::Rtu);
    assert_eq!(u.host, "ttyUSB0");
    assert_eq!(u.port_u32(), 19200);
}

#[test]
fn parse_rejects_wrong_scheme() {
    let r: Result<ModbusUri, UriError> = "https://example.org".parse();
    assert!(matches!(r, Err(UriError::Scheme(_))));
}

#[test]
fn parse_reports_missing_scheme_with_uri_text() {
    // Authority-form text parses as a URI without a scheme; the error names
    // the missing component and echoes the URI.
    let r: Result<ModbusUri, UriError> = "localhost:502".parse();
    match r {
        Err(UriError::Missing(m)) => {
            assert_eq!(m.missing, "scheme");
            assert_eq!(m.uri, "localhost:502");
        },
        other => panic!("expected a missing-scheme error, got {:?}", other),
    }
}

#[test]
fn parse_rejects_unparsable_text() {
    let r: Result<ModbusUri, UriError> = "%%%".parse();
    assert!(matches!(r, Err(UriError::Uri(_))));
}

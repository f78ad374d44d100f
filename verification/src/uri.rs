//! Connection URIs: scheme selection, host and port extraction, defaults.
//!
//! The text is parsed by the `http` crate; this module owns the decisions —
//! which schemes are accepted, which components are required, and which port
//! stands in when none is given.

use vstd::prelude::*;

verus! {

/// Transport protocol a URI selects.
#[derive(Debug, Clone, Copy, PartialEq, Eq, Structural)]
pub enum Proto {
    Tcp,
    Rtu,
}

/// The scheme text of each protocol.
pub open spec fn proto_scheme(p: Proto) -> Seq<char> {
    match p {
        Proto::Tcp => "tcp"@,
        Proto::Rtu => "rtu"@,
    }
}

/// The protocol a scheme text selects, if any.
pub open spec fn scheme_proto(scheme: Seq<char>) -> Option<Proto> {
    if scheme == "tcp"@ {
        Some(Proto::Tcp)
    } else if scheme == "rtu"@ {
        Some(Proto::Rtu)
    } else {
        None
    }
}

/// The provided scheme is not a supported one.
#[derive(Debug, Clone)]
pub struct InvalidScheme {
    pub scheme: String,
}

/// The URI lacks a component this client requires.
#[derive(Debug, Clone)]
pub struct MissingComponent {
    pub uri: String,
    pub missing: String,
}

/// Why a connection URI was rejected.
#[derive(Debug)]
pub enum UriError {
    Scheme(InvalidScheme),
    Missing(MissingComponent),
    Uri(http::uri::InvalidUri),
}

#[verifier::external_type_specification]
#[verifier::external_body]
pub struct ExUri(http::Uri);

#[verifier::external_type_specification]
#[verifier::external_body]
pub struct ExInvalidUri(http::uri::InvalidUri);

/// Relies on `http::Uri::try_from(&[u8])`: parses the text as a URI.
#[verifier::external_body]
fn parse_http_uri(text: &str) -> Result<http::Uri, http::uri::InvalidUri> {
    http::Uri::try_from(text.as_bytes())
}

/// Relies on `http::Uri::scheme_str`: the scheme, when the URI has one.
#[verifier::external_body]
fn uri_scheme_string(uri: &http::Uri) -> Option<String> {
    match uri.scheme_str() {
        Some(s) => Some(s.to_owned()),
        None => None,
    }
}

/// Relies on `http::Uri::host`: the host, when the URI has one.
#[verifier::external_body]
fn uri_host_string(uri: &http::Uri) -> Option<String> {
    match uri.host() {
        Some(h) => Some(h.to_owned()),
        None => None,
    }
}

/// Relies on `http::Uri::port_u16`: the port, when the URI names one.
#[verifier::external_body]
fn uri_port_value(uri: &http::Uri) -> Option<u16> {
    uri.port_u16()
}

/// Relies on the `http` crate's `Display` for `Uri`: the URI as text, for
/// error messages.
#[verifier::external_body]
fn uri_text(uri: &http::Uri) -> String {
    format!("{}", uri)
}

/// The port used when a URI names none: the conventional Modbus TCP port, or
/// the usual serial bitrate for RTU.
pub open spec fn spec_default_port(proto: Proto) -> u16 {
    match proto {
        Proto::Rtu => 9600,
        Proto::Tcp => 502,
    }
}

/// The port used when a URI names none.
pub fn default_port_for_proto(proto: Proto) -> (r: u16)
    ensures
        r == spec_default_port(proto),
{
    match proto {
        Proto::Rtu => 9600,
        Proto::Tcp => 502,
    }
}

/// A validated connection target: protocol, host, and port (for RTU the port
/// carries the bitrate).
#[derive(Debug, Clone)]
pub struct ModbusUri {
    pub proto: Proto,
    pub host: String,
    pub port: u16,
}

/// Decide a connection target from the components a parsed URI offers.
/// A missing scheme or host is rejected naming the component; a scheme other
/// than `tcp` or `rtu` is rejected as invalid; a missing port falls back to
/// the protocol's default.
pub fn modbus_uri_from_parts(
    scheme: Option<String>,
    host: Option<String>,
    port: Option<u16>,
    uri_display: String,
) -> (r: Result<ModbusUri, UriError>)
    ensures
        r is Ok <==> (scheme is Some && scheme_proto(scheme->0@) is Some && host is Some),
        r matches Ok(u) ==> {
            &&& Some(u.proto) == scheme_proto(scheme->0@)
            &&& u.host == host->0
            &&& u.port == (if port is Some {
                port->0
            } else {
                spec_default_port(u.proto)
            })
        },
        scheme is None ==> (r matches Err(UriError::Missing(m)) && m.uri == uri_display
            && m.missing@ == "scheme"@),
        scheme is Some && scheme_proto(scheme->0@) is None ==> (r matches Err(UriError::Scheme(e))
            && e.scheme == scheme->0),
        scheme is Some && scheme_proto(scheme->0@) is Some && host is None ==> (r matches Err(
            UriError::Missing(m),
        ) && m.uri == uri_display && m.missing@ == "host"@),
{
    let scheme_text = match scheme {
        Some(s) => s,
        None => {
            return Err(
                UriError::Missing(
                    MissingComponent { uri: uri_display, missing: "scheme".to_owned() },
                ),
            );
        },
    };
    let proto = if scheme_text == "tcp".to_owned() {
        Proto::Tcp
    } else if scheme_text == "rtu".to_owned() {
        Proto::Rtu
    } else {
        return Err(UriError::Scheme(InvalidScheme { scheme: scheme_text }));
    };
    let host_text = match host {
        Some(h) => h,
        None => {
            return Err(
                UriError::Missing(
                    MissingComponent { uri: uri_display, missing: "host".to_owned() },
                ),
            );
        },
    };
    let port_value = match port {
        Some(p) => p,
        None => default_port_for_proto(proto),
    };
    Ok(ModbusUri { proto, host: host_text, port: port_value })
}

impl ModbusUri {
    /// Decide a connection target from a parsed URI. The components come from
    /// the `http` crate; `modbus_uri_from_parts` states exactly what is made
    /// of them.
    pub fn try_from(uri: http::Uri) -> Result<ModbusUri, UriError> {
        let scheme = uri_scheme_string(&uri);
        let host = uri_host_string(&uri);
        let port = uri_port_value(&uri);
        let display = uri_text(&uri);
        modbus_uri_from_parts(scheme, host, port, display)
    }

    /// The port widened for callers that take a bitrate.
    pub fn port_u32(&self) -> (r: u32)
        ensures
            r == self.port,
    {
        self.port as u32
    }
}

impl core::str::FromStr for ModbusUri {
    type Err = UriError;

    fn from_str(s: &str) -> Result<ModbusUri, UriError> {
        match parse_http_uri(s) {
            Ok(uri) => ModbusUri::try_from(uri),
            Err(e) => Err(UriError::Uri(e)),
        }
    }
}

} // verus!

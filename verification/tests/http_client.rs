use wasmx::engine::wasi::http::client::{
    body_error, default_scheme, dns_error, is_supported_scheme, plan_connection, plan_request_connection,
    request_target,
    send_error, set_host_header, starts_with, tls_host, SendFailure,
};
use wasmx::engine::wasi::http::request::{Duration, Request, RequestOptions, Scheme};
use wasmx::engine::wasi::http::response::{send_informational, OutgoingResponse};
use wasmx::engine::wasi::http::fields::Fields;
use wasmx::engine::wasi::http::ErrorCode;

#[test]
fn default_client_choices() {
    assert_eq!(default_scheme(), Some(Scheme::Https));
    assert!(is_supported_scheme(&Scheme::Http));
    assert!(is_supported_scheme(&Scheme::Https));
    assert!(!is_supported_scheme(&Scheme::Other("ftp".to_string())));
    assert!(set_host_header());
}

#[test]
fn dns_error_payload() {
    match dns_error("x".to_string(), 3) {
        ErrorCode::DnsError(p) => {
            assert_eq!(p.rcode.as_deref(), Some("x"));
            assert_eq!(p.info_code, Some(3));
        }
        _ => panic!("not a DNS error"),
    }
}

#[test]
fn connection_plan_adds_default_ports() {
    let p = plan_connection(Some(&Scheme::Https), Some("example.com"), false, None).unwrap();
    assert_eq!(p.authority, "example.com:443");
    assert!(p.use_tls);
    assert_eq!(p.connect_timeout.as_secs(), 600);
    assert_eq!(p.first_byte_timeout.as_secs(), 600);
    assert_eq!(p.between_bytes_timeout.as_secs(), 600);
    let p = plan_connection(Some(&Scheme::Http), Some("example.com"), false, None).unwrap();
    assert_eq!(p.authority, "example.com:80");
    assert!(!p.use_tls);
    let p = plan_connection(None, Some("example.com:8080"), true, None).unwrap();
    assert_eq!(p.authority, "example.com:8080");
    assert!(!p.use_tls);
    assert!(matches!(
        plan_connection(Some(&Scheme::Http), None, false, None),
        Err(ErrorCode::HttpRequestUriInvalid)
    ));
}

#[test]
fn connection_plan_uses_options() {
    let mut o = RequestOptions::new();
    o.set_connect_timeout(Some(1_500_000_000));
    o.set_between_bytes_timeout(Some(7));
    let p = plan_connection(Some(&Scheme::Http), Some("h"), false, Some(&o)).unwrap();
    assert_eq!(p.connect_timeout.as_secs(), 1);
    assert_eq!(p.connect_timeout.subsec_nanos(), 500_000_000);
    assert_eq!(p.first_byte_timeout.as_secs(), 600);
    assert_eq!(p.between_bytes_timeout.as_nanos_u64(), Some(7));
}

#[test]
fn request_options_round_trip() {
    let mut o = RequestOptions::new();
    assert_eq!(o.connect_timeout_nanos(), Ok(None));
    o.set_first_byte_timeout(Some(u64::MAX));
    assert_eq!(o.first_byte_timeout_nanos(), Ok(Some(u64::MAX)));
    o.set_first_byte_timeout(None);
    assert_eq!(o.first_byte_timeout_nanos(), Ok(None));
    let long = RequestOptions {
        connect_timeout: Some(Duration::from_secs(u64::MAX)),
        first_byte_timeout: None,
        between_bytes_timeout: None,
    };
    assert_eq!(long.connect_timeout_nanos(), Err(()));
}

#[test]
fn send_errors() {
    assert!(matches!(send_error(SendFailure::ConnectTimedOut), ErrorCode::ConnectionTimeout));
    match send_error(SendFailure::AddressNotAvailable) {
        ErrorCode::DnsError(p) => {
            assert_eq!(p.rcode.as_deref(), Some("address not available"));
            assert_eq!(p.info_code, Some(0));
        }
        _ => panic!("not a DNS error"),
    }
    assert!(matches!(
        send_error(SendFailure::Connect(
            "failed to lookup address information: Name or service not known".to_string()
        )),
        ErrorCode::DnsError(_)
    ));
    assert!(matches!(
        send_error(SendFailure::Connect("connection refused".to_string())),
        ErrorCode::ConnectionRefused
    ));
    match send_error(SendFailure::InvalidDnsName) {
        ErrorCode::DnsError(p) => assert_eq!(p.rcode.as_deref(), Some("invalid dns name")),
        _ => panic!("not a DNS error"),
    }
    assert!(matches!(send_error(SendFailure::Tls), ErrorCode::TlsProtocolError));
    assert!(matches!(send_error(SendFailure::HandshakeTimedOut), ErrorCode::ConnectionTimeout));
    assert!(matches!(send_error(SendFailure::FirstByteTimedOut), ErrorCode::ConnectionReadTimeout));
}

#[test]
fn helpers() {
    assert!(starts_with("abc", "ab"));
    assert!(starts_with("abc", ""));
    assert!(!starts_with("ab", "abc"));
    assert!(!starts_with("xbc", "ab"));
    assert_eq!(tls_host("example.com:443"), "example.com");
    assert_eq!(tls_host("example.com"), "example.com");
    assert_eq!(tls_host(":1"), "");
    assert_eq!(request_target(Some("/a?b")), "/a?b");
    assert_eq!(request_target(None), "/");
    assert!(matches!(body_error(None), ErrorCode::InternalError(None)));
    assert!(matches!(body_error(Some(ErrorCode::LoopDetected)), ErrorCode::LoopDetected));
}

fn request() -> Request<()> {
    Request::new("GET".to_string(), None, None, None, Fields::new(), ())
}

#[test]
fn request_authority_and_path() {
    let mut r = request();
    assert_eq!(r.set_authority(Some("example.com:8080".to_string())), Ok(()));
    assert_eq!(r.authority.as_deref(), Some("example.com:8080"));
    assert_eq!(r.set_authority(Some("example.com:".to_string())), Err(()));
    assert_eq!(r.authority.as_deref(), Some("example.com:8080"));
    assert_eq!(r.set_authority(Some("exa mple".to_string())), Err(()));
    assert_eq!(r.set_authority(None), Ok(()));
    assert_eq!(r.authority, None);
    assert_eq!(r.set_path_with_query(Some("/a?b=c".to_string())), Ok(()));
    assert_eq!(r.path_with_query.as_deref(), Some("/a?b=c"));
    assert_eq!(r.set_path_with_query(Some("/a b".to_string())), Err(()));
    assert_eq!(r.consume(), Some(()));
    assert_eq!(r.consume(), None);
}

#[test]
fn outgoing_response() {
    let mut r: OutgoingResponse<u8> = OutgoingResponse::new(Fields::new());
    assert_eq!(r.status_code(), 200);
    assert_eq!(r.set_status_code(99), Err(()));
    assert_eq!(r.set_status_code(1000), Err(()));
    assert_eq!(r.status_code(), 200);
    assert_eq!(r.set_status_code(404), Ok(()));
    assert_eq!(r.status_code(), 404);
    assert_eq!(r.body(|| 5), Ok(5));
    assert_eq!(r.body(|| 6), Err(()));
    match send_informational(103) {
        Err(ErrorCode::InternalError(Some(m))) => {
            assert_eq!(m, "informational responses not supported")
        }
        _ => panic!("unexpected"),
    }
}

#[test]
fn connection_plan_reads_the_port_from_the_authority() {
    let p = plan_request_connection(Some(&Scheme::Https), Some("example.com"), None).unwrap();
    assert_eq!(p.authority, "example.com:443");
    assert!(p.use_tls);
    let p = plan_request_connection(Some(&Scheme::Http), Some("example.com"), None).unwrap();
    assert_eq!(p.authority, "example.com:80");
    let p = plan_request_connection(Some(&Scheme::Https), Some("example.com:8443"), None).unwrap();
    assert_eq!(p.authority, "example.com:8443");
    assert!(p.use_tls);
    assert!(matches!(
        plan_request_connection(Some(&Scheme::Http), Some("a b"), None),
        Err(ErrorCode::HttpRequestUriInvalid)
    ));
    assert!(matches!(
        plan_request_connection(Some(&Scheme::Http), None, None),
        Err(ErrorCode::HttpRequestUriInvalid)
    ));
}

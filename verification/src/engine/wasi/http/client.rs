//! How the default client sends a request: where it connects, how long it
//! waits, and which error each failure is reported as.
use vstd::prelude::*;

use crate::engine::wasi::http::request::{
    authority_port, parse_authority, Duration, RequestOptions, Scheme, NANOS_PER_SEC,
};
use crate::engine::wasi::http::{DnsErrorPayload, ErrorCode};

verus! {

/// The default HTTP client.
#[derive(Clone, Copy, Debug, Default, PartialEq, Eq, Structural)]
pub struct DefaultClient;

/// A DNS error with the given code and details.
pub fn dns_error(rcode: String, info_code: u16) -> (r: ErrorCode)
    ensures
        r matches ErrorCode::DnsError(p) && p.rcode == Some(rcode) && p.info_code == Some(
            info_code,
        ),
{
    ErrorCode::DnsError(DnsErrorPayload { rcode: Some(rcode), info_code: Some(info_code) })
}

/// The default client's scheme for requests that set none.
pub fn default_scheme() -> (r: Option<Scheme>)
    ensures
        r == Some(Scheme::Https),
{
    Some(Scheme::Https)
}

/// Whether the default client sends requests of this scheme.
pub fn is_supported_scheme(scheme: &Scheme) -> (r: bool)
    ensures
        r == (*scheme == Scheme::Http || *scheme == Scheme::Https),
{
    match scheme {
        Scheme::Http => true,
        Scheme::Https => true,
        Scheme::Other(_) => false,
    }
}

/// Whether the default client sets the `host` header.
pub fn set_host_header() -> (r: bool)
    ensures
        r,
{
    true
}

/// How long the client waits where the request sets no timeout: ten
/// minutes.
pub const DEFAULT_TIMEOUT_SECS: u64 = 600;

/// Where and how the default client connects for a request.
pub struct ConnectPlan {
    /// `host:port` to connect to.
    pub authority: String,
    pub use_tls: bool,
    pub connect_timeout: Duration,
    pub first_byte_timeout: Duration,
    pub between_bytes_timeout: Duration,
}

/// A timeout as the request sets it, else the default.
pub open spec fn timeout_or_default(t: Option<Duration>) -> nat {
    match t {
        Some(d) => d.total_nanos(),
        None => (DEFAULT_TIMEOUT_SECS * NANOS_PER_SEC) as nat,
    }
}

fn timeout_or_default_exec(t: Option<Duration>) -> (r: Duration)
    ensures
        r.total_nanos() == timeout_or_default(t),
{
    match t {
        Some(d) => d,
        None => Duration::from_secs(DEFAULT_TIMEOUT_SECS),
    }
}

/// Where to connect for an authority that is `authority` and names a port
/// or not: as it is, or with the scheme's port, 443 with TLS, else 80.
pub open spec fn connect_authority(authority: Seq<char>, has_port: bool, use_tls: bool) -> Seq<
    char,
> {
    if has_port {
        authority
    } else if use_tls {
        authority + ":443"@
    } else {
        authority + ":80"@
    }
}

/// Where no port is named, a TLS connection goes to port 443 and a plain
/// one to port 80, after a `:` appended to the authority as it is; a named
/// port is kept as it is. A timeout the request does not set is ten
/// minutes.
pub proof fn lemma_default_ports_and_timeouts(authority: Seq<char>, tls: bool)
    ensures
        connect_authority(authority, true, tls) == authority,
        connect_authority(authority, false, true) == authority + ":443"@,
        connect_authority(authority, false, false) == authority + ":80"@,
        connect_authority(authority, false, tls).subrange(0, authority.len() as int) == authority,
        connect_authority(authority, false, tls)[authority.len() as int] == ':',
        timeout_or_default(None) == 600_000_000_000,
        forall|d: Duration| #[trigger] timeout_or_default(Some(d)) == d.total_nanos(),
{
    reveal_strlit(":443");
    reveal_strlit(":80");
    let a443 = authority + ":443"@;
    let a80 = authority + ":80"@;
    assert(a443.subrange(0, authority.len() as int) =~= authority);
    assert(a80.subrange(0, authority.len() as int) =~= authority);
    assert(a443[authority.len() as int] == ':');
    assert(a80[authority.len() as int] == ':');
}

/// Plans the connection for a request of the given scheme and authority:
/// TLS for `https` alone, the port of the scheme where the authority names
/// none, and each timeout as the options set it, else ten minutes. A
/// request without an authority is refused.
pub fn plan_connection(
    scheme: Option<&Scheme>,
    authority: Option<&str>,
    has_port: bool,
    options: Option<&RequestOptions>,
) -> (r: Result<ConnectPlan, ErrorCode>)
    ensures
        authority is None ==> r matches Err(ErrorCode::HttpRequestUriInvalid),
        authority matches Some(a) ==> r matches Ok(p) && {
            let tls = scheme == Some(&Scheme::Https);
            &&& p.use_tls == tls
            &&& p.authority@ == connect_authority(a@, has_port, tls)
            &&& p.connect_timeout.total_nanos() == timeout_or_default(
                if options is Some {
                    options->0.connect_timeout
                } else {
                    None
                },
            )
            &&& p.first_byte_timeout.total_nanos() == timeout_or_default(
                if options is Some {
                    options->0.first_byte_timeout
                } else {
                    None
                },
            )
            &&& p.between_bytes_timeout.total_nanos() == timeout_or_default(
                if options is Some {
                    options->0.between_bytes_timeout
                } else {
                    None
                },
            )
        },
{
    let authority = match authority {
        Some(a) => a,
        None => return Err(ErrorCode::HttpRequestUriInvalid),
    };
    let use_tls = match scheme {
        Some(Scheme::Https) => true,
        _ => false,
    };
    let target = if has_port {
        authority.to_owned()
    } else if use_tls {
        authority.to_owned().concat(":443")
    } else {
        authority.to_owned().concat(":80")
    };
    let (connect, first_byte, between_bytes) = match options {
        Some(o) => (o.connect_timeout, o.first_byte_timeout, o.between_bytes_timeout),
        None => (None, None, None),
    };
    Ok(
        ConnectPlan {
            authority: target,
            use_tls,
            connect_timeout: timeout_or_default_exec(connect),
            first_byte_timeout: timeout_or_default_exec(first_byte),
            between_bytes_timeout: timeout_or_default_exec(between_bytes),
        },
    )
}

/// Plans the connection for a request whose URI has scheme `scheme` and
/// authority `authority`, whether it names a port read from the authority
/// as the `http` crate parses it. An authority that is missing, or that
/// does not parse, is refused.
pub fn plan_request_connection(
    scheme: Option<&Scheme>,
    authority: Option<&str>,
    options: Option<&RequestOptions>,
) -> (r: Result<ConnectPlan, ErrorCode>)
    ensures
        authority is None ==> r matches Err(ErrorCode::HttpRequestUriInvalid),
        authority matches Some(a) ==> match authority_port(a@) {
            None => r matches Err(ErrorCode::HttpRequestUriInvalid),
            Some(port) => r matches Ok(p) && {
                let tls = scheme == Some(&Scheme::Https);
                &&& p.use_tls == tls
                &&& p.authority@ == connect_authority(a@, port is Some, tls)
                &&& p.connect_timeout.total_nanos() == timeout_or_default(
                    if options is Some {
                        options->0.connect_timeout
                    } else {
                        None
                    },
                )
                &&& p.first_byte_timeout.total_nanos() == timeout_or_default(
                    if options is Some {
                        options->0.first_byte_timeout
                    } else {
                        None
                    },
                )
                &&& p.between_bytes_timeout.total_nanos() == timeout_or_default(
                    if options is Some {
                        options->0.between_bytes_timeout
                    } else {
                        None
                    },
                )
            },
        },
{
    let a = match authority {
        Some(a) => a,
        None => return Err(ErrorCode::HttpRequestUriInvalid),
    };
    let has_port = match parse_authority(a) {
        Some(port) => port.is_some(),
        None => return Err(ErrorCode::HttpRequestUriInvalid),
    };
    plan_connection(scheme, Some(a), has_port, options)
}

/// Whether `s` starts with `prefix`.
pub fn starts_with(s: &str, prefix: &str) -> (r: bool)
    ensures
        r == (prefix@.len() <= s@.len() && s@.subrange(0, prefix@.len() as int) == prefix@),
{
    let n = prefix.unicode_len();
    if n > s.unicode_len() {
        return false;
    }
    let mut i: usize = 0;
    while i < n
        invariant
            i <= n,
            n == prefix@.len(),
            n <= s@.len(),
            forall|j: int| 0 <= j < i ==> s@[j] == prefix@[j],
        decreases n - i,
    {
        if s.get_char(i) != prefix.get_char(i) {
            proof {
                assert(s@.subrange(0, n as int)[i as int] != prefix@[i as int]);
            }
            return false;
        }
        i += 1;
    }
    proof {
        assert(s@.subrange(0, n as int) =~= prefix@);
    }
    true
}

/// How sending a request failed before a response could come.
#[derive(Clone, Debug)]
pub enum SendFailure {
    /// The connection was not made in time.
    ConnectTimedOut,
    /// The address is not available.
    AddressNotAvailable,
    /// Connecting failed otherwise, with this message.
    Connect(String),
    /// The host is not a valid DNS name for TLS.
    InvalidDnsName,
    /// The TLS handshake failed.
    Tls,
    /// The HTTP handshake was not done in time.
    HandshakeTimedOut,
    /// The first byte of the response did not come in time.
    FirstByteTimedOut,
}

/// The message with which the system reports a name that did not resolve.
pub open spec fn lookup_failed_prefix() -> Seq<char> {
    "failed to lookup address information"@
}

/// Whether `r` is a DNS error with the code `rcode` and the details `0`.
pub open spec fn is_dns_error(r: ErrorCode, rcode: Seq<char>) -> bool {
    match r {
        ErrorCode::DnsError(p) => match p.rcode {
            Some(c) => c@ == rcode && p.info_code == Some(0u16),
            None => false,
        },
        _ => false,
    }
}

/// The error that reports a failure to send.
pub fn send_error(f: SendFailure) -> (r: ErrorCode)
    ensures
        f is ConnectTimedOut ==> r matches ErrorCode::ConnectionTimeout,
        f is AddressNotAvailable ==> is_dns_error(r, "address not available"@),
        f matches SendFailure::Connect(m) ==> if m@.len() >= lookup_failed_prefix().len()
            && m@.subrange(0, lookup_failed_prefix().len() as int) == lookup_failed_prefix() {
            is_dns_error(r, "address not available"@)
        } else {
            r matches ErrorCode::ConnectionRefused
        },
        f is InvalidDnsName ==> is_dns_error(r, "invalid dns name"@),
        f is Tls ==> r matches ErrorCode::TlsProtocolError,
        f is HandshakeTimedOut ==> r matches ErrorCode::ConnectionTimeout,
        f is FirstByteTimedOut ==> r matches ErrorCode::ConnectionReadTimeout,
{
    match f {
        SendFailure::ConnectTimedOut => ErrorCode::ConnectionTimeout,
        SendFailure::AddressNotAvailable => dns_error(String::from_str("address not available"), 0),
        SendFailure::Connect(m) => if starts_with(m.as_str(), "failed to lookup address information") {
            dns_error(String::from_str("address not available"), 0)
        } else {
            ErrorCode::ConnectionRefused
        },
        SendFailure::InvalidDnsName => dns_error(String::from_str("invalid dns name"), 0),
        SendFailure::Tls => ErrorCode::TlsProtocolError,
        SendFailure::HandshakeTimedOut => ErrorCode::ConnectionTimeout,
        SendFailure::FirstByteTimedOut => ErrorCode::ConnectionReadTimeout,
    }
}

/// The host name that TLS checks: what precedes the first `:` of the
/// authority.
pub fn tls_host(authority: &str) -> (r: &str)
    ensures
        !authority@.contains(':') ==> r@ == authority@,
        authority@.contains(':') ==> exists|k: int|
            0 <= k < authority@.len() && authority@[k] == ':' && (forall|j: int|
                0 <= j < k ==> authority@[j] != ':') && r@ == authority@.subrange(0, k),
{
    let n = authority.unicode_len();
    let mut i: usize = 0;
    while i < n
        invariant
            i <= n,
            n == authority@.len(),
            forall|j: int| 0 <= j < i ==> authority@[j] != ':',
        decreases n - i,
    {
        if authority.get_char(i) == ':' {
            return authority.substring_char(0, i);
        }
        i += 1;
    }
    proof {
        assert(authority@.subrange(0, n as int) =~= authority@);
    }
    authority.substring_char(0, n)
}

/// The target of the request line: the path and query, or `/`.
pub fn request_target(path_and_query: Option<&str>) -> (r: String)
    ensures
        path_and_query matches Some(p) ==> r@ == p@,
        path_and_query is None ==> r@ == "/"@,
{
    match path_and_query {
        Some(p) => p.to_owned(),
        None => String::from_str("/"),
    }
}

/// What a body error becomes on the wire: itself, or an internal error
/// where there is none.
pub fn body_error(err: Option<ErrorCode>) -> (r: ErrorCode)
    ensures
        err matches Some(e) ==> r == e,
        err is None ==> r matches ErrorCode::InternalError(None),
{
    match err {
        Some(e) => e,
        None => ErrorCode::InternalError(None),
    }
}

} // verus!

//! Requests, and the options of outgoing ones.
use vstd::prelude::*;

use crate::engine::wasi::http::fields::Fields;

verus! {

/// One billion: nanoseconds in a second.
pub const NANOS_PER_SEC: u64 = 1_000_000_000;

/// A span of time, in whole seconds and the nanoseconds beyond them.
#[derive(Clone, Copy, Debug, PartialEq, Eq, Structural)]
pub struct Duration {
    secs: u64,
    nanos: u32,
}

impl Duration {
    #[verifier::type_invariant]
    spec fn inv(self) -> bool {
        self.nanos < NANOS_PER_SEC
    }

    /// The span in nanoseconds.
    pub closed spec fn total_nanos(self) -> nat {
        (self.secs * NANOS_PER_SEC + self.nanos) as nat
    }

    /// `secs` seconds.
    pub fn from_secs(secs: u64) -> (r: Self)
        ensures
            r.total_nanos() == secs * NANOS_PER_SEC,
    {
        Duration { secs, nanos: 0 }
    }

    /// `nanos` nanoseconds.
    pub fn from_nanos(nanos: u64) -> (r: Self)
        ensures
            r.total_nanos() == nanos,
    {
        Duration { secs: nanos / NANOS_PER_SEC, nanos: (nanos % NANOS_PER_SEC) as u32 }
    }

    /// The whole seconds.
    pub fn as_secs(&self) -> (r: u64)
        ensures
            r == self.total_nanos() / (NANOS_PER_SEC as nat),
    {
        proof {
            use_type_invariant(self);
        }
        self.secs
    }

    /// The nanoseconds beyond the whole seconds.
    pub fn subsec_nanos(&self) -> (r: u32)
        ensures
            r == self.total_nanos() % (NANOS_PER_SEC as nat),
    {
        proof {
            use_type_invariant(self);
        }
        self.nanos
    }

    /// The span in nanoseconds, where that fits in 64 bits.
    pub fn as_nanos_u64(&self) -> (r: Option<u64>)
        ensures
            r is Some <==> self.total_nanos() <= u64::MAX,
            r matches Some(n) ==> n == self.total_nanos(),
    {
        proof {
            use_type_invariant(self);
        }
        match self.secs.checked_mul(NANOS_PER_SEC) {
            None => None,
            Some(s) => s.checked_add(self.nanos as u64),
        }
    }
}

/// The concrete type behind a `wasi:http/types/request-options` resource.
#[derive(Clone, Copy, Debug, PartialEq, Eq, Structural)]
pub struct RequestOptions {
    /// How long to wait for a connection to be established.
    pub connect_timeout: Option<Duration>,
    /// How long to wait for the first byte of the response body.
    pub first_byte_timeout: Option<Duration>,
    /// How long to wait between frames of the response body.
    pub between_bytes_timeout: Option<Duration>,
}

/// A timeout as the guest reads it: in nanoseconds, or `Err(())` where it
/// does not fit in 64 bits.
pub open spec fn timeout_nanos(t: Option<Duration>) -> Result<Option<u64>, ()> {
    match t {
        None => Ok(None),
        Some(d) => if d.total_nanos() <= u64::MAX {
            Ok(Some(d.total_nanos() as u64))
        } else {
            Err(())
        },
    }
}

fn read_timeout(t: &Option<Duration>) -> (r: Result<Option<u64>, ()>)
    ensures
        r == timeout_nanos(*t),
{
    match t {
        None => Ok(None),
        Some(d) => match d.as_nanos_u64() {
            Some(n) => Ok(Some(n)),
            None => Err(()),
        },
    }
}

/// A timeout that the guest sets, in nanoseconds.
pub open spec fn timeout_from_nanos(nanos: Option<u64>, t: Option<Duration>) -> bool {
    match nanos {
        None => t is None,
        Some(n) => t matches Some(d) && d.total_nanos() == n,
    }
}

fn write_timeout(nanos: Option<u64>) -> (r: Option<Duration>)
    ensures
        timeout_from_nanos(nanos, r),
{
    match nanos {
        None => None,
        Some(n) => Some(Duration::from_nanos(n)),
    }
}

impl RequestOptions {
    /// No timeouts.
    pub fn new() -> (r: Self)
        ensures
            r.connect_timeout is None,
            r.first_byte_timeout is None,
            r.between_bytes_timeout is None,
    {
        RequestOptions { connect_timeout: None, first_byte_timeout: None, between_bytes_timeout: None }
    }

    /// `request-options.connect-timeout`, in nanoseconds.
    pub fn connect_timeout_nanos(&self) -> (r: Result<Option<u64>, ()>)
        ensures
            r == timeout_nanos(self.connect_timeout),
    {
        read_timeout(&self.connect_timeout)
    }

    /// `request-options.first-byte-timeout`, in nanoseconds.
    pub fn first_byte_timeout_nanos(&self) -> (r: Result<Option<u64>, ()>)
        ensures
            r == timeout_nanos(self.first_byte_timeout),
    {
        read_timeout(&self.first_byte_timeout)
    }

    /// `request-options.between-bytes-timeout`, in nanoseconds.
    pub fn between_bytes_timeout_nanos(&self) -> (r: Result<Option<u64>, ()>)
        ensures
            r == timeout_nanos(self.between_bytes_timeout),
    {
        read_timeout(&self.between_bytes_timeout)
    }

    /// `request-options.set-connect-timeout`.
    pub fn set_connect_timeout(&mut self, nanos: Option<u64>)
        ensures
            timeout_from_nanos(nanos, final(self).connect_timeout),
            final(self).first_byte_timeout == old(self).first_byte_timeout,
            final(self).between_bytes_timeout == old(self).between_bytes_timeout,
    {
        self.connect_timeout = write_timeout(nanos);
    }

    /// `request-options.set-first-byte-timeout`.
    pub fn set_first_byte_timeout(&mut self, nanos: Option<u64>)
        ensures
            timeout_from_nanos(nanos, final(self).first_byte_timeout),
            final(self).connect_timeout == old(self).connect_timeout,
            final(self).between_bytes_timeout == old(self).between_bytes_timeout,
    {
        self.first_byte_timeout = write_timeout(nanos);
    }

    /// `request-options.set-between-bytes-timeout`.
    pub fn set_between_bytes_timeout(&mut self, nanos: Option<u64>)
        ensures
            timeout_from_nanos(nanos, final(self).between_bytes_timeout),
            final(self).connect_timeout == old(self).connect_timeout,
            final(self).first_byte_timeout == old(self).first_byte_timeout,
    {
        self.between_bytes_timeout = write_timeout(nanos);
    }
}

/// The scheme of a request.
#[derive(Clone, Debug, PartialEq, Eq)]
pub enum Scheme {
    Http,
    Https,
    Other(String),
}

/// Whether `s` is a valid authority, and its port if it names one, as the
/// `http` crate parses authorities.
pub uninterp spec fn authority_port(s: Seq<char>) -> Option<Option<u16>>;

/// Whether `s` is a valid path with query, as the `http` crate parses them.
pub uninterp spec fn path_and_query_valid(s: Seq<char>) -> bool;

/// Parses an authority and gives its port, if it names one.
///
/// Calls `<http::uri::Authority as TryFrom<&str>>::try_from` and
/// `Authority::port_u16`; what they accept is named, not stated.
#[verifier::external_body]
pub(crate) fn parse_authority(s: &str) -> (r: Option<Option<u16>>)
    ensures
        r == authority_port(s@),
{
    match http::uri::Authority::try_from(s) {
        Ok(a) => Some(a.port_u16()),
        Err(_) => None,
    }
}

/// Checks a path with query.
///
/// Calls `<http::uri::PathAndQuery as TryFrom<&str>>::try_from`; what it
/// accepts is named, not stated.
#[verifier::external_body]
fn is_valid_path_and_query(s: &str) -> (r: bool)
    ensures
        r == path_and_query_valid(s@),
{
    http::uri::PathAndQuery::try_from(s).is_ok()
}

/// Whether `s` holds a `:`.
pub fn contains_colon(s: &str) -> (r: bool)
    ensures
        r == s@.contains(':'),
{
    let n = s.unicode_len();
    let mut i: usize = 0;
    while i < n
        invariant
            i <= n,
            n == s@.len(),
            forall|j: int| 0 <= j < i ==> s@[j] != ':',
        decreases n - i,
    {
        if s.get_char(i) == ':' {
            return true;
        }
        i += 1;
    }
    false
}

/// Whether an authority is accepted, given whether it holds a `:` and how
/// it parsed: it must parse, and a `:` must introduce a port.
pub fn accept_authority(has_colon: bool, parsed: Option<Option<u16>>) -> (r: bool)
    ensures
        r == (parsed is Some && !(has_colon && parsed->0 is None)),
{
    match parsed {
        None => false,
        Some(port) => !(has_colon && port.is_none()),
    }
}

/// The concrete type behind a `wasi:http/types/request` resource.
pub struct Request<T> {
    /// The method of the request.
    pub method: String,
    /// The scheme of the request.
    pub scheme: Option<Scheme>,
    /// The authority of the request.
    pub authority: Option<String>,
    /// The path and query of the request.
    pub path_with_query: Option<String>,
    /// The request headers.
    pub headers: Fields,
    /// The request body.
    pub body: Option<T>,
}

impl<T> Request<T> {
    /// A request with these parts and `body`.
    pub fn new(
        method: String,
        scheme: Option<Scheme>,
        authority: Option<String>,
        path_with_query: Option<String>,
        headers: Fields,
        body: T,
    ) -> (r: Self)
        ensures
            r.method == method,
            r.scheme == scheme,
            r.authority == authority,
            r.path_with_query == path_with_query,
            r.headers == headers,
            r.body == Some(body),
    {
        Request { method, scheme, authority, path_with_query, headers, body: Some(body) }
    }

    /// `outgoing-request.set-authority`: `None` clears it; otherwise it must
    /// parse, and a `:` in it must introduce a port.
    pub fn set_authority(&mut self, authority: Option<String>) -> (r: Result<(), ()>)
        ensures
            authority is None ==> r is Ok && final(self).authority is None,
            authority matches Some(a) ==> (r is Ok <==> (authority_port(a@) is Some && !(a@.contains(':')
                && authority_port(a@)->0 is None))),
            r is Ok ==> final(self).authority == authority,
            r is Err ==> final(self).authority == old(self).authority,
            final(self).method == old(self).method,
            final(self).path_with_query == old(self).path_with_query,
    {
        match authority {
            None => {
                self.authority = None;
                Ok(())
            },
            Some(a) => {
                let has_colon = contains_colon(a.as_str());
                let parsed = parse_authority(a.as_str());
                if accept_authority(has_colon, parsed) {
                    self.authority = Some(a);
                    Ok(())
                } else {
                    Err(())
                }
            },
        }
    }

    /// `outgoing-request.set-path-with-query`: `None` clears it; otherwise
    /// it must parse.
    pub fn set_path_with_query(&mut self, path_with_query: Option<String>) -> (r: Result<(), ()>)
        ensures
            path_with_query is None ==> r is Ok && final(self).path_with_query is None,
            path_with_query matches Some(p) ==> (r is Ok <==> path_and_query_valid(p@)),
            r is Ok ==> final(self).path_with_query == path_with_query,
            r is Err ==> final(self).path_with_query == old(self).path_with_query,
            final(self).method == old(self).method,
            final(self).authority == old(self).authority,
    {
        match path_with_query {
            None => {
                self.path_with_query = None;
                Ok(())
            },
            Some(p) => if is_valid_path_and_query(p.as_str()) {
                self.path_with_query = Some(p);
                Ok(())
            } else {
                Err(())
            },
        }
    }

    /// `incoming-request.consume`: hands out the body, once.
    pub fn consume(&mut self) -> (r: Option<T>)
        ensures
            r == old(self).body,
            final(self).body is None,
            final(self).method == old(self).method,
    {
        let mut body = None;
        std::mem::swap(&mut body, &mut self.body);
        body
    }
}


/// A timeout that the guest sets in nanoseconds reads back as the same
/// number of nanoseconds.
pub proof fn lemma_timeout_round_trip(nanos: Option<u64>, t: Option<Duration>)
    requires
        timeout_from_nanos(nanos, t),
    ensures
        timeout_nanos(t) == Ok::<Option<u64>, ()>(nanos),
{
}

} // verus!

//! The host side of `wasi:http`.
use vstd::prelude::*;
use crate::engine::wasi::{link_all, link_outcome, Interface};

pub mod body;
pub mod client;
pub mod fields;
pub mod request;
pub mod response;

verus! {

/// Payload of [`ErrorCode::DnsError`].
#[derive(Clone, Debug)]
pub struct DnsErrorPayload {
    pub rcode: Option<String>,
    pub info_code: Option<u16>,
}

/// Payload of [`ErrorCode::TlsAlertReceived`].
#[derive(Clone, Debug)]
pub struct TlsAlertReceivedPayload {
    pub alert_id: Option<u8>,
    pub alert_message: Option<String>,
}

/// Payload of the errors about the size of one field.
#[derive(Clone, Debug)]
pub struct FieldSizePayload {
    pub field_name: Option<String>,
    pub field_size: Option<u32>,
}

/// `wasi:http/types.error-code`.
#[derive(Clone, Debug)]
pub enum ErrorCode {
    DnsTimeout,
    DnsError(DnsErrorPayload),
    DestinationNotFound,
    DestinationUnavailable,
    DestinationIpProhibited,
    DestinationIpUnroutable,
    ConnectionRefused,
    ConnectionTerminated,
    ConnectionTimeout,
    ConnectionReadTimeout,
    ConnectionWriteTimeout,
    ConnectionLimitReached,
    TlsProtocolError,
    TlsCertificateError,
    TlsAlertReceived(TlsAlertReceivedPayload),
    HttpRequestDenied,
    HttpRequestLengthRequired,
    HttpRequestBodySize(Option<u64>),
    HttpRequestMethodInvalid,
    HttpRequestUriInvalid,
    HttpRequestUriTooLong,
    HttpRequestHeaderSectionSize(Option<u32>),
    HttpRequestHeaderSize(Option<FieldSizePayload>),
    HttpRequestTrailerSectionSize(Option<u32>),
    HttpRequestTrailerSize(FieldSizePayload),
    HttpResponseIncomplete,
    HttpResponseHeaderSectionSize(Option<u32>),
    HttpResponseHeaderSize(FieldSizePayload),
    HttpResponseBodySize(Option<u64>),
    HttpResponseTrailerSectionSize(Option<u32>),
    HttpResponseTrailerSize(FieldSizePayload),
    HttpResponseTransferCoding(Option<String>),
    HttpResponseContentCoding(Option<String>),
    HttpResponseTimeout,
    HttpUpgradeFailed,
    HttpProtocolError,
    LoopDetected,
    ConfigurationError,
    InternalError(Option<String>),
}

/// The concrete type behind a `wasi:http/types.future-incoming-response`
/// resource.
#[derive(Clone, Copy, Debug, PartialEq, Eq, Structural)]
pub struct FutureIncomingResponse;

/// `wasi:http/types.header-error`.
#[derive(Copy, Clone, Debug, PartialEq, Eq, Structural)]
pub enum HeaderError {
    InvalidSyntax,
    Forbidden,
    Immutable,
}


/// The interfaces of `wasi:http`, in the order in which a linker gets them.
pub open spec fn http_interfaces() -> Seq<Interface> {
    seq![Interface::HttpOutgoingHandler, Interface::HttpTypes]
}

/// The interfaces of `wasi:http`, in the order in which a linker gets them.
pub fn interfaces() -> (r: Vec<Interface>)
    ensures
        r@ == http_interfaces(),
{
    let r = vec![Interface::HttpOutgoingHandler, Interface::HttpTypes];
    proof {
        assert(r@ =~= http_interfaces());
    }
    r
}

/// Gives a linker all of `wasi:http`; stops at the first error.
pub fn add_to_linker<E, F: Fn(Interface) -> Result<(), E>>(link: &F) -> (r: Result<(), E>)
    requires
        forall|s: Interface| call_requires(*link, (s,)),
    ensures
        link_outcome(*link, http_interfaces(), r),
{
    link_all(link, interfaces())
}

} // verus!

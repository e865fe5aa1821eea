//! The host-defined resource types that values may carry across component
//! boundaries.
use vstd::prelude::*;

verus! {

/// A resource type whose representation lives in the host.
#[derive(Copy, Clone, Debug, PartialEq, Eq, Structural)]
pub enum HostResource {
    InputStream,
    IoError,
    OutputStream,
    Pollable,
    TcpSocket,
}

/// What a resource handle refers to, as seen from the store that holds it.
#[derive(Copy, Clone, Debug, PartialEq, Eq, Structural)]
pub enum ResourceKind {
    /// A resource of one of the host's own types.
    Host(HostResource),
    /// A guest resource that the host keeps in its table on a guest's behalf.
    Held,
    /// A resource defined by a guest.
    Guest,
}

/// The type of `wasi:io/streams.input-stream`.
pub fn input_stream() -> (r: HostResource)
    ensures
        r == HostResource::InputStream,
{
    HostResource::InputStream
}

/// The type of `wasi:io/error.error`.
pub fn io_error() -> (r: HostResource)
    ensures
        r == HostResource::IoError,
{
    HostResource::IoError
}

/// The type of `wasi:io/streams.output-stream`.
pub fn output_stream() -> (r: HostResource)
    ensures
        r == HostResource::OutputStream,
{
    HostResource::OutputStream
}

/// The type of `wasi:io/poll.pollable`.
pub fn pollable() -> (r: HostResource)
    ensures
        r == HostResource::Pollable,
{
    HostResource::Pollable
}

/// The type of `wasi:sockets/tcp.tcp-socket`.
pub fn tcp_socket() -> (r: HostResource)
    ensures
        r == HostResource::TcpSocket,
{
    HostResource::TcpSocket
}

/// Whether a resource of this kind is one of the host's own types.
pub open spec fn is_host_resource_spec(kind: ResourceKind) -> bool {
    kind is Host
}

/// The host's own resource types are the five it defines (input and output
/// streams, I/O errors, pollables and TCP sockets); a guest resource,
/// whether or not the host holds it for the guest, is not one of them.
pub proof fn lemma_host_resources_are_the_hosts(h: HostResource)
    ensures
        is_host_resource_spec(ResourceKind::Host(h)),
        !is_host_resource_spec(ResourceKind::Held),
        !is_host_resource_spec(ResourceKind::Guest),
{
}

/// Whether a resource of this kind is one of the host's own types.
pub fn is_host_resource_type(kind: ResourceKind) -> (r: bool)
    ensures
        r == is_host_resource_spec(kind),
{
    match kind {
        ResourceKind::Host(_) => true,
        _ => false,
    }
}

} // verus!

use vstd::prelude::*;
use crate::engine::wasi::{link_all, link_outcome, Interface, NetworkLinkOptions};

pub mod tcp;

verus! {

/// The `wasi:sockets/ip-name-lookup` resolve stream resource.
pub struct ResolveAddressStream;

/// The `wasi:sockets/network` network resource.
#[derive(Debug, Clone, Copy)]
pub struct Network;

/// The address family a socket was created for.
#[derive(Copy, Clone, Debug, PartialEq, Eq, Structural)]
pub enum SocketAddressFamily {
    Ipv4,
    Ipv6,
}

/// `wasi:sockets/network` `ip-address-family`.
#[derive(Copy, Clone, Debug, PartialEq, Eq, Structural)]
pub enum IpAddressFamily {
    Ipv4,
    Ipv6,
}

/// `wasi:sockets/network` `error-code`.
#[derive(Copy, Clone, Debug, PartialEq, Eq, Structural)]
pub enum ErrorCode {
    Unknown,
    AccessDenied,
    NotSupported,
    InvalidArgument,
    OutOfMemory,
    Timeout,
    ConcurrencyConflict,
    NotInProgress,
    WouldBlock,
    InvalidState,
    NewSocketLimit,
    AddressNotBindable,
    AddressInUse,
    RemoteUnreachable,
    ConnectionRefused,
    ConnectionReset,
    ConnectionAborted,
    DatagramTooLarge,
    NameUnresolvable,
    TemporaryResolverFailure,
    PermanentResolverFailure,
}


/// The interfaces of `wasi:sockets`, in the order in which a linker gets them.
pub open spec fn sockets_interfaces(network_options: NetworkLinkOptions) -> Seq<Interface> {
    seq![
        Interface::SocketsInstanceNetwork,
        Interface::SocketsIpNameLookup,
        Interface::SocketsNetwork(network_options),
        Interface::SocketsTcp,
        Interface::SocketsTcpCreateSocket,
        Interface::SocketsUdp,
        Interface::SocketsUdpCreateSocket,
    ]
}

/// The interfaces of `wasi:sockets`, in the order in which a linker gets them.
pub fn interfaces(network_options: &NetworkLinkOptions) -> (r: Vec<Interface>)
    ensures
        r@ == sockets_interfaces(*network_options),
{
    let r = vec![
        Interface::SocketsInstanceNetwork,
        Interface::SocketsIpNameLookup,
        Interface::SocketsNetwork(*network_options),
        Interface::SocketsTcp,
        Interface::SocketsTcpCreateSocket,
        Interface::SocketsUdp,
        Interface::SocketsUdpCreateSocket,
    ];
    proof {
        assert(r@ =~= sockets_interfaces(*network_options));
    }
    r
}

/// Gives a linker all of `wasi:sockets`, with the default options; stops at
/// the first error.
pub fn add_to_linker<E, F: Fn(Interface) -> Result<(), E>>(link: &F) -> (r: Result<(), E>)
    requires
        forall|s: Interface| call_requires(*link, (s,)),
    ensures
        link_outcome(*link, sockets_interfaces(NetworkLinkOptions { network_error_code: false }), r),
{
    add_to_linker_with_options(link, &NetworkLinkOptions::default())
}

/// Gives a linker all of `wasi:sockets`, `network` with `network_options`;
/// stops at the first error.
pub fn add_to_linker_with_options<E, F: Fn(Interface) -> Result<(), E>>(
    link: &F,
    network_options: &NetworkLinkOptions,
) -> (r: Result<(), E>)
    requires
        forall|s: Interface| call_requires(*link, (s,)),
    ensures
        link_outcome(*link, sockets_interfaces(*network_options), r),
{
    link_all(link, interfaces(network_options))
}

} // verus!

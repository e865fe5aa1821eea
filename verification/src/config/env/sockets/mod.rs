//! Which networks a component's sockets may reach.
use vstd::prelude::*;

pub mod host;
pub mod none;

verus! {

/// The network of one address family.
#[derive(Clone, Debug, PartialEq, Eq)]
pub enum Network<T> {
    /// No network; at most the loopback interface.
    Disconnected { loopback: none::Loopback },
    /// The host's network.
    Host(host::Config<T>),
}

impl<T> Default for Network<T> {
    fn default() -> (r: Self)
        ensures
            r == (Network::<T>::Disconnected { loopback: none::Loopback::Off }),
    {
        Network::Disconnected { loopback: none::Loopback::Off }
    }
}

} // verus!

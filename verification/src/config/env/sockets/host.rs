//! Sockets on the host's network.
use vstd::prelude::*;

verus! {

/// Whether the loopback interface is reachable.
#[derive(Clone, Copy, Debug, PartialEq, Eq, Structural)]
pub enum Loopback {
    Off,
    Host,
}

impl Default for Loopback {
    fn default() -> (r: Self)
        ensures
            r == Loopback::Off,
    {
        Loopback::Off
    }
}

/// The host network's settings: the address to use, if one is fixed.
#[derive(Clone, Debug, PartialEq, Eq)]
pub struct Config<T> {
    pub address: Option<T>,
    pub loopback: Loopback,
}

impl<T> Default for Config<T> {
    fn default() -> (r: Self)
        ensures
            r.address is None,
            r.loopback == Loopback::Off,
    {
        Config { address: None, loopback: Loopback::Off }
    }
}

} // verus!

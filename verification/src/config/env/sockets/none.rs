//! No network.
use vstd::prelude::*;

verus! {

/// Whether the loopback interface is reachable: without a network, never.
#[derive(Clone, Copy, Debug, PartialEq, Eq, Structural)]
pub enum Loopback {
    Off,
}

impl Default for Loopback {
    fn default() -> (r: Self)
        ensures
            r == Loopback::Off,
    {
        Loopback::Off
    }
}

} // verus!

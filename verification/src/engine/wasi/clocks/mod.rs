//! `wasi:clocks`.
use vstd::prelude::*;

use crate::engine::wasi::{link_all, link_outcome, Interface};

verus! {

/// The interfaces of `wasi:clocks`, in the order in which a linker gets them.
pub open spec fn clocks_interfaces() -> Seq<Interface> {
    seq![Interface::ClocksWallClock, Interface::ClocksMonotonicClock]
}

/// The interfaces of `wasi:clocks`, in the order in which a linker gets them.
pub fn interfaces() -> (r: Vec<Interface>)
    ensures
        r@ == clocks_interfaces(),
{
    let r = vec![Interface::ClocksWallClock, Interface::ClocksMonotonicClock];
    proof {
        assert(r@ =~= clocks_interfaces());
    }
    r
}

/// Gives a linker all of `wasi:clocks`; stops at the first error.
pub fn add_to_linker<E, F: Fn(Interface) -> Result<(), E>>(link: &F) -> (r: Result<(), E>)
    requires
        forall|s: Interface| call_requires(*link, (s,)),
    ensures
        link_outcome(*link, clocks_interfaces(), r),
{
    link_all(link, interfaces())
}

} // verus!

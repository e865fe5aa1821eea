//! The WASI interfaces that the host provides, and the order in which a
//! linker receives them.
use vstd::prelude::*;

pub mod cli;
pub mod clocks;
pub mod filesystem;
pub mod http;
pub mod io;
pub mod random;
pub mod sockets;

verus! {

/// Which unstable parts of `wasi:cli/exit` to provide.
#[derive(Clone, Copy, Debug, PartialEq, Eq, Structural)]
pub struct ExitLinkOptions {
    pub cli_exit_with_code: bool,
}

/// Which unstable parts of `wasi:sockets/network` to provide.
#[derive(Clone, Copy, Debug, PartialEq, Eq, Structural)]
pub struct NetworkLinkOptions {
    pub network_error_code: bool,
}

/// Which unstable parts of WASI to provide.
#[derive(Clone, Copy, Debug, PartialEq, Eq, Structural)]
pub struct LinkOptions {
    pub cli_exit_with_code: bool,
    pub network_error_code: bool,
}

impl Default for ExitLinkOptions {
    /// `exit-with-code` off.
    fn default() -> (r: Self)
        ensures
            r == (ExitLinkOptions { cli_exit_with_code: false }),
    {
        ExitLinkOptions { cli_exit_with_code: false }
    }
}

impl Default for NetworkLinkOptions {
    /// `network-error-code` off.
    fn default() -> (r: Self)
        ensures
            r == (NetworkLinkOptions { network_error_code: false }),
    {
        NetworkLinkOptions { network_error_code: false }
    }
}

impl Default for LinkOptions {
    /// Every unstable feature off.
    fn default() -> (r: Self)
        ensures
            r == (LinkOptions { cli_exit_with_code: false, network_error_code: false }),
    {
        LinkOptions { cli_exit_with_code: false, network_error_code: false }
    }
}

impl LinkOptions {
    /// The options that concern `wasi:cli/exit`.
    pub fn exit_options(&self) -> (r: ExitLinkOptions)
        ensures
            r.cli_exit_with_code == self.cli_exit_with_code,
    {
        ExitLinkOptions { cli_exit_with_code: self.cli_exit_with_code }
    }

    /// The options that concern `wasi:sockets/network`.
    pub fn network_options(&self) -> (r: NetworkLinkOptions)
        ensures
            r.network_error_code == self.network_error_code,
    {
        NetworkLinkOptions { network_error_code: self.network_error_code }
    }
}

/// One interface that a linker is given.
#[derive(Clone, Copy, Debug, PartialEq, Eq, Structural)]
pub enum Interface {
    /// `wasi:io`, whole.
    Io,
    CliEnvironment,
    CliExit(ExitLinkOptions),
    CliStdin,
    CliStdout,
    CliStderr,
    CliTerminalInput,
    CliTerminalOutput,
    CliTerminalStdin,
    CliTerminalStdout,
    CliTerminalStderr,
    ClocksWallClock,
    ClocksMonotonicClock,
    FilesystemTypes,
    FilesystemPreopens,
    HttpOutgoingHandler,
    HttpTypes,
    Random,
    RandomInsecure,
    RandomInsecureSeed,
    SocketsInstanceNetwork,
    SocketsIpNameLookup,
    SocketsNetwork(NetworkLinkOptions),
    SocketsTcp,
    SocketsTcpCreateSocket,
    SocketsUdp,
    SocketsUdpCreateSocket,
}

/// Whether `link` took every one of `steps`.
pub open spec fn linked_all<E, F: Fn(Interface) -> Result<(), E>>(
    link: F,
    steps: Seq<Interface>,
) -> bool {
    forall|i: int| 0 <= i < steps.len() ==> call_ensures(link, (#[trigger] steps[i],), Ok(()))
}

/// Whether `link` took the steps before the `k`-th, and refused that one
/// with `e`.
pub open spec fn failed_at<E, F: Fn(Interface) -> Result<(), E>>(
    link: F,
    steps: Seq<Interface>,
    k: int,
    e: E,
) -> bool {
    &&& 0 <= k < steps.len()
    &&& forall|i: int| 0 <= i < k ==> call_ensures(link, (#[trigger] steps[i],), Ok(()))
    &&& call_ensures(link, (steps[k],), Err(e))
}

/// What giving a linker `steps` through `link` answers: success once every
/// step was taken, or the error of the first one refused.
pub open spec fn link_outcome<E, F: Fn(Interface) -> Result<(), E>>(
    link: F,
    steps: Seq<Interface>,
    r: Result<(), E>,
) -> bool {
    &&& r is Ok ==> linked_all(link, steps)
    &&& r matches Err(e) ==> exists|k: int| failed_at(link, steps, k, e)
}

/// Gives `link` each of `steps` in order, stopping at the first error.
pub fn link_all<E, F: Fn(Interface) -> Result<(), E>>(link: &F, steps: Vec<Interface>) -> (r:
    Result<(), E>)
    requires
        forall|s: Interface| call_requires(*link, (s,)),
    ensures
        link_outcome(*link, steps@, r),
{
    let mut i: usize = 0;
    while i < steps.len()
        invariant
            i <= steps.len(),
            forall|s: Interface| call_requires(*link, (s,)),
            forall|j: int| 0 <= j < i ==> call_ensures(*link, (#[trigger] steps@[j],), Ok(())),
        decreases steps.len() - i,
    {
        let res = link(steps[i]);
        match res {
            Ok(u) => {
                assert(res == Ok::<(), E>(()));
            },
            Err(e) => {
                proof {
                    assert(failed_at(*link, steps@, i as int, e));
                }
                return Err(e);
            },
        }
        i += 1;
    }
    Ok(())
}

/// Whether `link` answers each interface in one way only.
pub open spec fn is_deterministic<E, F: Fn(Interface) -> Result<(), E>>(link: F) -> bool {
    forall|s: Interface, a: Result<(), E>, b: Result<(), E>|
        #[trigger] call_ensures(link, (s,), a) && #[trigger] call_ensures(link, (s,), b) ==> a == b
}

/// Linking the same interfaces in the same order with a deterministic
/// `link` comes out the same: the same interfaces are handed over, and the
/// same error, or none, comes back.
pub proof fn lemma_same_steps_same_outcome<E, F: Fn(Interface) -> Result<(), E>>(
    link: F,
    steps: Seq<Interface>,
    r1: Result<(), E>,
    r2: Result<(), E>,
)
    requires
        is_deterministic(link),
        link_outcome(link, steps, r1),
        link_outcome(link, steps, r2),
    ensures
        r1 == r2,
{
    match r1 {
        Ok(u1) => match r2 {
            Ok(u2) => {
                assert(u1 == u2);
            },
            Err(e) => {
                let k = choose|k: int| failed_at(link, steps, k, e);
                assert(call_ensures(link, (steps[k],), Ok::<(), E>(())));
                assert(false);
            },
        },
        Err(e1) => match r2 {
            Ok(_) => {
                let k = choose|k: int| failed_at(link, steps, k, e1);
                assert(call_ensures(link, (steps[k],), Ok::<(), E>(())));
                assert(false);
            },
            Err(e2) => {
                let k1 = choose|k: int| failed_at(link, steps, k, e1);
                let k2 = choose|k: int| failed_at(link, steps, k, e2);
                if k1 < k2 {
                    assert(call_ensures(link, (steps[k1],), Ok::<(), E>(())));
                } else if k2 < k1 {
                    assert(call_ensures(link, (steps[k2],), Ok::<(), E>(())));
                } else {
                    assert(call_ensures(link, (steps[k1],), Err::<(), E>(e1)));
                    assert(call_ensures(link, (steps[k1],), Err::<(), E>(e2)));
                }
                assert(e1 == e2);
            },
        },
    }
}

/// Every interface of WASI, with `options`, in the order of
/// [`add_to_linker_with_options`].
pub open spec fn wasi_interfaces(options: LinkOptions) -> Seq<Interface> {
    seq![Interface::Io] + cli::cli_interfaces(options.exit_options_spec())
        + clocks::clocks_interfaces() + filesystem::filesystem_interfaces()
        + http::http_interfaces() + random::random_interfaces() + sockets::sockets_interfaces(
        options.network_options_spec(),
    )
}

impl LinkOptions {
    /// [`LinkOptions::exit_options`], in specifications.
    pub open spec fn exit_options_spec(self) -> ExitLinkOptions {
        ExitLinkOptions { cli_exit_with_code: self.cli_exit_with_code }
    }

    /// [`LinkOptions::network_options`], in specifications.
    pub open spec fn network_options_spec(self) -> NetworkLinkOptions {
        NetworkLinkOptions { network_error_code: self.network_error_code }
    }
}

/// Gives a linker all of WASI, with the default options.
pub fn add_to_linker<E, F: Fn(Interface) -> Result<(), E>>(link: &F) -> (r: Result<(), E>)
    requires
        forall|s: Interface| call_requires(*link, (s,)),
    ensures
        link_outcome(*link, wasi_interfaces(LinkOptions { cli_exit_with_code: false, network_error_code: false }), r),
{
    let options = LinkOptions::default();
    add_to_linker_with_options(link, &options)
}

/// Gives a linker all of WASI: `wasi:io` first, then the interfaces of
/// `wasi:cli`, `wasi:clocks`, `wasi:filesystem`, `wasi:http`, `wasi:random`
/// and `wasi:sockets`; stops at the first error.
pub fn add_to_linker_with_options<E, F: Fn(Interface) -> Result<(), E>>(
    link: &F,
    options: &LinkOptions,
) -> (r: Result<(), E>)
    requires
        forall|s: Interface| call_requires(*link, (s,)),
    ensures
        link_outcome(*link, wasi_interfaces(*options), r),
{
    let mut steps: Vec<Interface> = vec![Interface::Io];
    steps.append(&mut cli::interfaces(&options.exit_options()));
    steps.append(&mut clocks::interfaces());
    steps.append(&mut filesystem::interfaces());
    steps.append(&mut http::interfaces());
    steps.append(&mut random::interfaces());
    steps.append(&mut sockets::interfaces(&options.network_options()));
    proof {
        assert(steps@ =~= wasi_interfaces(*options));
    }
    link_all(link, steps)
}

/// `add_to_linker` does what `add_to_linker_with_options` does with the
/// options that `LinkOptions::default` gives: with a deterministic `link`,
/// the two hand over the same interfaces and come out the same.
pub proof fn lemma_add_to_linker_is_default_options<E, F: Fn(Interface) -> Result<(), E>>(
    link: F,
    options: LinkOptions,
    plain: Result<(), E>,
    with_options: Result<(), E>,
)
    requires
        is_deterministic(link),
        options == (LinkOptions { cli_exit_with_code: false, network_error_code: false }),
        link_outcome(
            link,
            wasi_interfaces(LinkOptions { cli_exit_with_code: false, network_error_code: false }),
            plain,
        ),
        link_outcome(link, wasi_interfaces(options), with_options),
    ensures
        plain == with_options,
{
    lemma_same_steps_same_outcome(link, wasi_interfaces(options), plain, with_options);
}

/// A linker gets all 27 interfaces of WASI, `io` first: then `cli` (its
/// `exit` with the options' exit setting), `clocks`, `filesystem`, `http`,
/// `random` and `sockets` (its `network` with the options' network
/// setting), each interface once.
pub proof fn lemma_every_interface_once(options: LinkOptions)
    ensures
        wasi_interfaces(options).len() == 27,
        wasi_interfaces(options)[0] == Interface::Io,
        wasi_interfaces(options)[1] == Interface::CliEnvironment,
        wasi_interfaces(options)[2] == Interface::CliExit(
            ExitLinkOptions { cli_exit_with_code: options.cli_exit_with_code },
        ),
        wasi_interfaces(options)[11] == Interface::ClocksWallClock,
        wasi_interfaces(options)[13] == Interface::FilesystemTypes,
        wasi_interfaces(options)[15] == Interface::HttpOutgoingHandler,
        wasi_interfaces(options)[17] == Interface::Random,
        wasi_interfaces(options)[22] == Interface::SocketsNetwork(
            NetworkLinkOptions { network_error_code: options.network_error_code },
        ),
        wasi_interfaces(options)[26] == Interface::SocketsUdpCreateSocket,
        forall|i: int, j: int|
            0 <= i < j < 27 ==> wasi_interfaces(options)[i] != wasi_interfaces(options)[j],
{
    let s = wasi_interfaces(options);
    assert(s =~= seq![
        Interface::Io,
        Interface::CliEnvironment,
        Interface::CliExit(ExitLinkOptions { cli_exit_with_code: options.cli_exit_with_code }),
        Interface::CliStdin,
        Interface::CliStdout,
        Interface::CliStderr,
        Interface::CliTerminalInput,
        Interface::CliTerminalOutput,
        Interface::CliTerminalStdin,
        Interface::CliTerminalStdout,
        Interface::CliTerminalStderr,
        Interface::ClocksWallClock,
        Interface::ClocksMonotonicClock,
        Interface::FilesystemTypes,
        Interface::FilesystemPreopens,
        Interface::HttpOutgoingHandler,
        Interface::HttpTypes,
        Interface::Random,
        Interface::RandomInsecure,
        Interface::RandomInsecureSeed,
        Interface::SocketsInstanceNetwork,
        Interface::SocketsIpNameLookup,
        Interface::SocketsNetwork(NetworkLinkOptions { network_error_code: options.network_error_code }),
        Interface::SocketsTcp,
        Interface::SocketsTcpCreateSocket,
        Interface::SocketsUdp,
        Interface::SocketsUdpCreateSocket,
    ]);
}

} // verus!

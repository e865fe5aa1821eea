//! `wasi:cli`.
use vstd::prelude::*;

use crate::engine::wasi::{
    is_deterministic, lemma_same_steps_same_outcome, link_all, link_outcome, ExitLinkOptions,
    Interface,
};

verus! {

/// The interfaces of `wasi:cli`, in the order in which a linker gets them.
pub open spec fn cli_interfaces(exit_options: ExitLinkOptions) -> Seq<Interface> {
    seq![
        Interface::CliEnvironment,
        Interface::CliExit(exit_options),
        Interface::CliStdin,
        Interface::CliStdout,
        Interface::CliStderr,
        Interface::CliTerminalInput,
        Interface::CliTerminalOutput,
        Interface::CliTerminalStdin,
        Interface::CliTerminalStdout,
        Interface::CliTerminalStderr,
    ]
}

/// The interfaces of `wasi:cli`, in the order in which a linker gets them.
pub fn interfaces(exit_options: &ExitLinkOptions) -> (r: Vec<Interface>)
    ensures
        r@ == cli_interfaces(*exit_options),
{
    let r = vec![
        Interface::CliEnvironment,
        Interface::CliExit(*exit_options),
        Interface::CliStdin,
        Interface::CliStdout,
        Interface::CliStderr,
        Interface::CliTerminalInput,
        Interface::CliTerminalOutput,
        Interface::CliTerminalStdin,
        Interface::CliTerminalStdout,
        Interface::CliTerminalStderr,
    ];
    proof {
        assert(r@ =~= cli_interfaces(*exit_options));
    }
    r
}

/// Gives a linker all of `wasi:cli`, with the default options.
pub fn add_to_linker<E, F: Fn(Interface) -> Result<(), E>>(link: &F) -> (r: Result<(), E>)
    requires
        forall|s: Interface| call_requires(*link, (s,)),
    ensures
        link_outcome(*link, cli_interfaces(ExitLinkOptions { cli_exit_with_code: false }), r),
{
    add_to_linker_with_options(link, &ExitLinkOptions::default())
}

/// Gives a linker all of `wasi:cli`, `exit` with `exit_options`; stops at
/// the first error.
pub fn add_to_linker_with_options<E, F: Fn(Interface) -> Result<(), E>>(
    link: &F,
    exit_options: &ExitLinkOptions,
) -> (r: Result<(), E>)
    requires
        forall|s: Interface| call_requires(*link, (s,)),
    ensures
        link_outcome(*link, cli_interfaces(*exit_options), r),
{
    link_all(link, interfaces(exit_options))
}

/// `add_to_linker` does what `add_to_linker_with_options` does with the
/// options that `ExitLinkOptions::default` gives: with a deterministic
/// `link`, the two hand over the same interfaces and come out the same.
pub proof fn lemma_add_to_linker_is_default_options<E, F: Fn(Interface) -> Result<(), E>>(
    link: F,
    exit_options: ExitLinkOptions,
    plain: Result<(), E>,
    with_options: Result<(), E>,
)
    requires
        is_deterministic(link),
        exit_options == (ExitLinkOptions { cli_exit_with_code: false }),
        link_outcome(link, cli_interfaces(ExitLinkOptions { cli_exit_with_code: false }), plain),
        link_outcome(link, cli_interfaces(exit_options), with_options),
    ensures
        plain == with_options,
{
    lemma_same_steps_same_outcome(link, cli_interfaces(exit_options), plain, with_options);
}

/// An error returned from the `proc_exit` host syscall.
///
/// Embedders can test if an error returned from wasm is this error, in which
/// case it may signal a non-fatal trap.
#[derive(Clone, Copy, Debug, PartialEq, Eq, Structural)]
pub struct I32Exit(pub i32);

impl I32Exit {
    /// `wasi:cli/exit.exit`: status 0 for success, 1 for failure.
    pub fn from_status(status: Result<(), ()>) -> (r: Self)
        ensures
            r.0 == (if status is Ok {
                0i32
            } else {
                1i32
            }),
    {
        match status {
            Ok(()) => I32Exit(0),
            Err(()) => I32Exit(1),
        }
    }

    /// `wasi:cli/exit.exit-with-code`.
    pub fn from_code(status_code: u8) -> (r: Self)
        ensures
            r.0 == status_code as i32,
    {
        I32Exit(status_code as i32)
    }
}

/// The concrete type behind a `wasi:cli/terminal-input.terminal-input` resource.
#[derive(Clone, Copy, Debug, PartialEq, Eq, Structural)]
pub struct TerminalInput;

/// The concrete type behind a `wasi:cli/terminal-output.terminal-output` resource.
#[derive(Clone, Copy, Debug, PartialEq, Eq, Structural)]
pub struct TerminalOutput;

} // verus!

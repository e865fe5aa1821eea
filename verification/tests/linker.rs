use std::cell::RefCell;

use wasmx::engine::wasi::{self, ExitLinkOptions, Interface, LinkOptions, NetworkLinkOptions};

fn recorder() -> (RefCell<Vec<Interface>>, Option<Interface>) {
    (RefCell::new(Vec::new()), None)
}

#[test]
fn wasi_links_every_interface_in_order() {
    let (seen, _) = recorder();
    let link = |i: Interface| -> Result<(), String> {
        seen.borrow_mut().push(i);
        Ok(())
    };
    assert_eq!(wasi::add_to_linker(&link), Ok(()));
    let seen = seen.into_inner();
    assert_eq!(seen.len(), 27);
    assert_eq!(seen[0], Interface::Io);
    assert_eq!(seen[1], Interface::CliEnvironment);
    assert_eq!(seen[2], Interface::CliExit(ExitLinkOptions { cli_exit_with_code: false }));
    assert_eq!(seen[11], Interface::ClocksWallClock);
    assert_eq!(seen[13], Interface::FilesystemTypes);
    assert_eq!(seen[15], Interface::HttpOutgoingHandler);
    assert_eq!(seen[17], Interface::Random);
    assert_eq!(seen[20], Interface::SocketsInstanceNetwork);
    assert_eq!(seen[22], Interface::SocketsNetwork(NetworkLinkOptions { network_error_code: false }));
    assert_eq!(seen[26], Interface::SocketsUdpCreateSocket);
}

#[test]
fn options_reach_their_interfaces() {
    let (seen, _) = recorder();
    let link = |i: Interface| -> Result<(), String> {
        seen.borrow_mut().push(i);
        Ok(())
    };
    let options = LinkOptions { cli_exit_with_code: true, network_error_code: true };
    assert_eq!(wasi::add_to_linker_with_options(&link, &options), Ok(()));
    let seen = seen.into_inner();
    assert!(seen.contains(&Interface::CliExit(ExitLinkOptions { cli_exit_with_code: true })));
    assert!(seen.contains(&Interface::SocketsNetwork(NetworkLinkOptions { network_error_code: true })));
}

#[test]
fn linking_stops_at_first_error() {
    let count = RefCell::new(0);
    let link = |i: Interface| -> Result<(), Interface> {
        *count.borrow_mut() += 1;
        if i == Interface::ClocksMonotonicClock {
            Err(i)
        } else {
            Ok(())
        }
    };
    assert_eq!(wasi::add_to_linker(&link), Err(Interface::ClocksMonotonicClock));
    assert_eq!(*count.borrow(), 13);
}

#[test]
fn module_linkers() {
    let seen = RefCell::new(Vec::new());
    let link = |i: Interface| -> Result<(), ()> {
        seen.borrow_mut().push(i);
        Ok(())
    };
    wasi::cli::add_to_linker(&link).unwrap();
    wasi::cli::add_to_linker_with_options(&link, &ExitLinkOptions { cli_exit_with_code: true }).unwrap();
    wasi::clocks::add_to_linker(&link).unwrap();
    wasi::filesystem::add_to_linker(&link).unwrap();
    wasi::http::add_to_linker(&link).unwrap();
    wasi::random::add_to_linker(&link).unwrap();
    wasi::sockets::add_to_linker(&link).unwrap();
    wasi::sockets::add_to_linker_with_options(&link, &NetworkLinkOptions { network_error_code: true }).unwrap();
    assert_eq!(seen.borrow().len(), 10 + 10 + 2 + 2 + 2 + 3 + 7 + 7);
    assert_eq!(
        wasi::random::interfaces(),
        vec![Interface::Random, Interface::RandomInsecure, Interface::RandomInsecureSeed]
    );
    assert_eq!(
        wasi::filesystem::interfaces(),
        vec![Interface::FilesystemTypes, Interface::FilesystemPreopens]
    );
}

#[test]
fn add_to_linker_is_the_default_options() {
    for fail_at in [None, Some(Interface::CliStdout), Some(Interface::SocketsTcp)] {
        let run = |cli_only: bool, with_options: bool| {
            let seen = RefCell::new(Vec::new());
            let link = |i: Interface| -> Result<(), String> {
                seen.borrow_mut().push(i);
                if Some(i) == fail_at { Err(format!("{i:?}")) } else { Ok(()) }
            };
            let r = match (cli_only, with_options) {
                (false, false) => wasi::add_to_linker(&link),
                (false, true) => wasi::add_to_linker_with_options(&link, &LinkOptions::default()),
                (true, false) => wasi::cli::add_to_linker(&link),
                (true, true) => wasi::cli::add_to_linker_with_options(&link, &ExitLinkOptions::default()),
            };
            (r, seen.into_inner())
        };
        assert_eq!(run(false, false), run(false, true));
        assert_eq!(run(true, false), run(true, true));
    }
    assert_eq!(LinkOptions::default(), LinkOptions { cli_exit_with_code: false, network_error_code: false });
    assert_eq!(NetworkLinkOptions::default(), NetworkLinkOptions { network_error_code: false });
}

use wasmx::engine::wasi::cli::{I32Exit, TerminalInput, TerminalOutput};

#[test]
fn exit_statuses() {
    assert_eq!(I32Exit::from_status(Ok(())), I32Exit(0));
    assert_eq!(I32Exit::from_status(Err(())), I32Exit(1));
    assert_eq!(I32Exit::from_code(42), I32Exit(42));
    assert_eq!(I32Exit::from_code(255).0, 255);
    assert_eq!(TerminalInput, TerminalInput);
    assert_eq!(TerminalOutput, TerminalOutput);
}

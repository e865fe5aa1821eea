//! What a component's environment gives it.
pub mod sockets;

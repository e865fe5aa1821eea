//! A WebAssembly component host: the decisions, state machines and data
//! transformations of its WASI implementation, with their contracts.

pub mod config;
pub mod engine;
pub mod host;
pub mod wasmtime;

//! The manifest's description of workloads, services and plugins.
pub mod component;
pub mod env;

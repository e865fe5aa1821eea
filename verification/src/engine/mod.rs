pub mod plugin;
pub mod resource_types;
pub mod wasi;
pub mod workload;

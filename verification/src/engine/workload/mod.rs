//! Running a component's exports.
pub mod value;

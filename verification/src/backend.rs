//! The native backend: lowering of a typed program to a machine-level module.

pub mod determinism;
pub mod error;
pub mod lower;
pub mod module;
pub mod native;
pub mod prelude;
pub mod resolution;
pub mod wellformed;

//! Workloads that two drivers are compared on.

pub mod draws;
pub mod longer;
pub mod op_laws;
pub mod ops;
pub mod spec;
pub mod values;

//! Allocation: where it happens, and collecting into what can fail to grow.

pub mod collect;
pub mod site;

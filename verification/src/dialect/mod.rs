//! SQL dialects.

pub mod builtin;
pub mod builtin_laws;
pub mod sqlite;

//! Verified building blocks of an embedded SQL database: the logical log
//! encoding, bytecode emission for window functions and recursive queries,
//! the PostgreSQL compatibility layer and the remote driver protocol.

pub mod dialect;
pub mod differential;
pub mod driver;
pub mod engine;
pub mod error;
pub mod function;
pub mod log;
pub mod memory;
pub mod names;
pub mod percentile;
pub mod percentile_laws;
pub mod pg;
pub mod profile;
pub mod scan;
pub mod scan_laws;
pub mod text;
pub mod translate;
pub mod value;

//! The driver for remote databases: SQL over HTTP.

pub mod blob;
pub mod column;
pub mod conformance;
pub mod connection;
pub mod connection_laws;
pub mod database;
pub mod error;
pub mod param_laws;
pub mod params;
pub mod protocol;
pub mod rows;
pub mod sealed;
pub mod statement;
pub mod transaction;

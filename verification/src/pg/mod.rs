//! The PostgreSQL compatibility layer.

pub mod catalog;
pub mod catalog_laws;
pub mod command;
pub mod command_laws;
pub mod dbz;
pub mod dbz_laws;
pub mod function_laws;
pub mod functions;
pub mod input;
pub mod input_laws;
pub mod json;
pub mod json_laws;
pub mod number;
pub mod number_laws;
pub mod portal_laws;
pub mod server;
pub mod type_laws;
pub mod types;

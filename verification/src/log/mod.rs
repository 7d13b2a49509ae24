//! The logical log: how committed operations are laid out as bytes.

pub mod chunk;
pub mod encrypt;
pub mod encrypted;
pub mod format;
pub mod portable;
pub mod reader;
pub mod serializer;
pub mod varint;

//! The codes and sizes that fix a version of the log's format.

use vstd::prelude::*;

verus! {

/// What an extension record takes before its payload: two bytes of type, two
/// of flags and four of length.
pub const EXTENSION_RECORD_HEADER_SIZE: usize = 8;

/// What a database header takes.
pub const DATABASE_HEADER_SIZE: usize = 100;

/// The codes and sizes of one version of the log's format.
#[derive(Clone, Copy)]
pub struct LogFormat {
    /// The tag of a table row that is written.
    pub op_upsert_table: u8,
    /// The tag of a table row that is deleted.
    pub op_delete_table: u8,
    /// The tag of an index entry that is written.
    pub op_upsert_index: u8,
    /// The tag of an index entry that is deleted.
    pub op_delete_index: u8,
    /// The tag of a new database header.
    pub op_update_header: u8,
    /// The flag of a row that the b-tree holds too.
    pub flag_btree_resident: u8,
    /// The flag of an operation with a portable extension.
    pub flag_portable_extension: u8,
    /// What ends a transaction's frame.
    pub end_magic: u32,
    /// The size of the log's own header.
    pub log_header_size: usize,
    /// The size of a frame's trailer.
    pub tx_trailer_size: usize,
    /// The field of a deleted row's identity.
    pub field_delete_identity_record: u64,
    /// The field of a deleted row's primary key.
    pub field_delete_pk_record: u64,
    /// The field of a deleted row's number.
    pub field_delete_rowid: u64,
}

} // verus!

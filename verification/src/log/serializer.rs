//! Writes operations, headers, trailers and extensions of the log into a
//! buffer.

use vstd::prelude::*;
use vstd::slice::{slice_subrange, slice_to_vec};
use crate::log::{chunk, portable, varint};
use crate::log::chunk::{LogBufferExt, LogBufferWrite, LogChunkStream, LogError, chain};
use crate::log::format::{DATABASE_HEADER_SIZE, EXTENSION_RECORD_HEADER_SIZE, LogFormat};
use crate::log::portable::{ExtensionRecord, PortableChangePayload, extension_record_len};
use crate::log::varint::{
    PROTO_WIRE_LENGTH_DELIMITED, ProtoKey, ProtoSint64, ProtoVarint, SqliteVarint, u16_le, u32_le,
    varint_len,
};

verus! {

/// What a row is addressed by: its number in a table, or the record that an
/// index holds.
#[derive(Clone, Copy, Debug, PartialEq, Eq, Structural)]
pub enum RowKey {
    Int(i64),
    Record,
}

/// One version of a row, as far as the log writes it down.
pub struct RowVersion {
    /// Whether the version has ended, that is, whether the row was deleted.
    pub ended: bool,
    /// Whether the b-tree holds the row too.
    pub btree_resident: bool,
    /// The table or index; the log numbers them downwards from -1.
    pub table_id: i64,
    pub row_id: RowKey,
    /// The record, or for an index the key.
    pub payload: Vec<u8>,
}

impl RowVersion {
    /// Table numbers are negative and take 32 bits.
    pub open spec fn valid(&self) -> bool {
        i32::MIN <= self.table_id < 0
    }
}

/// The unsigned word with the same bits.
pub open spec fn unsigned(v: i64) -> u64 {
    if v >= 0 {
        v as u64
    } else {
        (v + 0x1_0000_0000_0000_0000) as u64
    }
}

fn to_unsigned(v: i64) -> (u: u64)
    ensures
        u == unsigned(v),
{
    if v >= 0 {
        v as u64
    } else {
        0xffff_ffff_ffff_ffffu64 - ((-(v + 1)) as u64)
    }
}

/// The tag of the operation that writes `row` down.
pub open spec fn op_tag(format: LogFormat, row: RowVersion) -> u8 {
    match (row.row_id, row.ended) {
        (RowKey::Int(_), false) => format.op_upsert_table,
        (RowKey::Int(_), true) => format.op_delete_table,
        (RowKey::Record, false) => format.op_upsert_index,
        (RowKey::Record, true) => format.op_delete_index,
    }
}

/// The flags of the operation that writes `row` down.
pub open spec fn op_flags(format: LogFormat, row: RowVersion, extended: bool) -> u8 {
    (if row.btree_resident {
        format.flag_btree_resident
    } else {
        0
    }) | (if extended {
        format.flag_portable_extension
    } else {
        0
    })
}

/// The payload of the operation: a table row has its number in front, and a
/// deleted one has nothing else.
pub open spec fn op_payload(row: RowVersion) -> Seq<u8> {
    match (row.row_id, row.ended) {
        (RowKey::Int(rowid), false) => varint::sqlite_varint(unsigned(rowid)) + row.payload@,
        (RowKey::Int(rowid), true) => varint::sqlite_varint(unsigned(rowid)),
        (RowKey::Record, _) => row.payload@,
    }
}

/// Whether there is a portable extension to write; an empty one counts as
/// none.
pub open spec fn has_extension(extension: Option<Seq<u8>>) -> bool {
    extension matches Some(bytes) && bytes.len() > 0
}

/// What follows the payload of an extended operation.
pub open spec fn extension_suffix(extension: Option<Seq<u8>>) -> Seq<u8> {
    if has_extension(extension) {
        varint::sqlite_varint(extension->Some_0.len() as u64) + extension->Some_0
    } else {
        Seq::empty()
    }
}

/// One operation in the log: tag, flags, table, length of the payload,
/// payload, extension.
pub open spec fn op_entry(format: LogFormat, row: RowVersion, extension: Option<Seq<u8>>) -> Seq<
    u8,
> {
    seq![op_tag(format, row), op_flags(format, row, has_extension(extension))] + varint::le_bytes(
        (row.table_id + 0x1_0000_0000) as nat,
        4,
    ) + varint::sqlite_varint(op_payload(row).len() as u64) + op_payload(row) + extension_suffix(
        extension,
    )
}

/// The view of an optional slice.
pub open spec fn opt_bytes(bytes: Option<&[u8]>) -> Option<Seq<u8>> {
    match bytes {
        Some(bytes) => Some(bytes@),
        None => None,
    }
}

/// What an attempt to append `bytes` does. When the allocator refuses is left
/// open; a refused buffer keeps what it held.
pub open spec fn appends(
    before: Seq<u8>,
    after: Seq<u8>,
    bytes: Seq<u8>,
    r: Result<(), LogError>,
) -> bool {
    match r {
        Ok(_) => before.len() + bytes.len() <= usize::MAX && after == before + bytes,
        Err(e) => after == before && if before.len() + bytes.len() > usize::MAX {
            e == LogError::LengthOverflow
        } else {
            e == LogError::OutOfMemory
        },
    }
}

/// A database header as it stands on the first page.
pub struct DatabaseHeader {
    pub bytes: [u8; 100],
}

/// The bytes of a header, by `bytemuck::bytes_of`: an array of bytes is seen
/// as the slice of its elements.
#[verifier::external_body]
fn bytes_of(header: &[u8; 100]) -> (r: &[u8])
    ensures
        r@ == header@,
{
    bytemuck::bytes_of(header)
}

/// Moves the last `count` bytes to `offset`.
fn rotate_tail(bytes: &mut [u8], offset: usize, count: usize)
    requires
        offset + count <= old(bytes)@.len(),
    ensures
        final(bytes)@ == old(bytes)@.take(offset as int) + old(bytes)@.skip(
            old(bytes)@.len() - count,
        ) + old(bytes)@.subrange(offset as int, old(bytes)@.len() - count),
{
    let len: usize = bytes.len();
    let tail = slice_to_vec(slice_subrange(bytes, len - count, len));
    let middle = slice_to_vec(slice_subrange(bytes, offset, len - count));
    chunk::copy_at(bytes, offset, &tail);
    chunk::copy_at(bytes, offset + count, &middle);
    assert(bytes@ =~= old(bytes)@.take(offset as int) + old(bytes)@.skip(
        old(bytes)@.len() - count,
    ) + old(bytes)@.subrange(offset as int, old(bytes)@.len() - count));
}

/// Writes the log into a buffer that somebody else holds.
pub struct LogSerializer<'a, B = Vec<u8>> {
    pub buffer: &'a mut B,
}

/// What inserting `bytes` at `offset` does. When the allocator refuses is
/// left open; a refused buffer keeps what it held.
pub open spec fn inserts(
    before: Seq<u8>,
    after: Seq<u8>,
    offset: nat,
    bytes: Seq<u8>,
    r: Result<(), LogError>,
) -> bool {
    match r {
        Ok(_) => {
            &&& offset <= before.len()
            &&& before.len() + bytes.len() <= usize::MAX
            &&& after == before.take(offset as int) + bytes + before.skip(offset as int)
        },
        Err(e) => after == before && if offset > before.len() {
            e == LogError::InsertOffset
        } else if before.len() + bytes.len() > usize::MAX {
            e == LogError::LengthOverflow
        } else {
            e == LogError::OutOfMemory
        },
    }
}

/// An extension record in the log: type, flags, length, payload.
pub open spec fn extension_record(extension_type: u16, extension_flags: u16, payload: Seq<u8>) -> Seq<
    u8,
> {
    varint::le_bytes(extension_type as nat, 2) + varint::le_bytes(extension_flags as nat, 2)
        + varint::le_bytes(payload.len(), 4) + payload
}

/// The entry of a new database header.
pub open spec fn header_entry(format: LogFormat, header: Seq<u8>) -> Seq<u8> {
    seq![format.op_update_header, 0, 0, 0, 0, 0, DATABASE_HEADER_SIZE as u8] + header
}

/// What ends a frame.
pub open spec fn tx_trailer(format: LogFormat, crc: u32) -> Seq<u8> {
    varint::le_bytes(crc as nat, 4) + varint::le_bytes(format.end_magic as nat, 4)
}

/// A deleted row's identity or key as a field; an empty one is left out.
pub open spec fn delete_field(field: u64, record: Option<Seq<u8>>) -> Seq<u8> {
    if has_extension(record) {
        ProtoKey { field, wire_type: PROTO_WIRE_LENGTH_DELIMITED }.encoding()
            + varint::proto_varint(record->Some_0.len()) + record->Some_0
    } else {
        Seq::empty()
    }
}

/// The portable extension of a delete: identity, key and row number, each
/// where there is one.
pub open spec fn delete_extension(
    format: LogFormat,
    identity: Option<Seq<u8>>,
    pk: Option<Seq<u8>>,
    rowid: Option<i64>,
) -> Seq<u8> {
    delete_field(format.field_delete_identity_record, identity) + delete_field(
        format.field_delete_pk_record,
        pk,
    ) + match rowid {
        Some(rowid) => ProtoSint64 {
            field: format.field_delete_rowid,
            value: rowid,
        }.encoding(),
        None => Seq::empty(),
    }
}

impl<'a, B: LogBufferExt> LogSerializer<'a, B> {
    pub fn new(buffer: &'a mut B) -> (s: Self)
        ensures
            *s.buffer == *old(buffer),
            *final(buffer) == *final(s.buffer),
    {
        LogSerializer { buffer }
    }

    /// Appends a stream. One that does not write as many bytes as it announced
    /// is refused, and the buffer keeps what it held.
    pub fn write<C: LogChunkStream>(&mut self, chunks: C) -> (r: Result<(), LogError>)
        ensures
            chunk::extends(old(self).buffer.contents(), final(self).buffer.contents(), chunks, r),
            chunk::faithful(chunks) ==> appends(
                old(self).buffer.contents(),
                final(self).buffer.contents(),
                chunks.bytes(),
                r,
            ),
            *final(final(self).buffer) == *final(old(self).buffer),
    {
        self.buffer.try_extend_chunks(chunks)
    }

    /// Inserts a value; what stood at `offset` and behind it follows the
    /// value.
    pub fn insert<W: LogBufferWrite>(&mut self, offset: usize, value: W) -> (r: Result<
        (),
        LogError,
    >)
        requires
            value.encodable(),
        ensures
            inserts(
                old(self).buffer.contents(),
                final(self).buffer.contents(),
                offset as nat,
                value.encoding(),
                r,
            ),
            *final(final(self).buffer) == *final(old(self).buffer),
    {
        if offset > self.buffer.as_bytes().len() {
            return Err(LogError::InsertOffset);
        }
        let original_len: usize = self.buffer.as_bytes().len();
        match self.write(value.into_chunks()) {
            Ok(_) => {},
            Err(e) => {
                return Err(e);
            },
        }
        let encoded_len: usize = self.buffer.as_bytes().len() - original_len;
        rotate_tail(self.buffer.as_bytes_mut(), offset, encoded_len);
        proof {
            let before = old(self).buffer.contents();
            assert(self.buffer.contents() =~= before.take(offset as int) + value.encoding()
                + before.skip(offset as int));
        }
        Ok(())
    }

    /// Inserts the extension record of a portable payload.
    pub fn insert_portable_extension(
        &mut self,
        offset: usize,
        record: ExtensionRecord<PortableChangePayload<'_>>,
    ) -> (r: Result<(), LogError>)
        ensures
            ({
                let payload = record.payload.encoding();
                match portable::record_len(payload.len()) {
                    Ok(_) => inserts(
                        old(self).buffer.contents(),
                        final(self).buffer.contents(),
                        offset as nat,
                        extension_record(record.extension_type, record.extension_flags, payload),
                        r,
                    ),
                    Err(e) => {
                        &&& final(self).buffer.contents() == old(self).buffer.contents()
                        &&& r == Err::<(), LogError>(
                            if offset > old(self).buffer.contents().len() {
                                LogError::InsertOffset
                            } else {
                                e
                            },
                        )
                    },
                }
            }),
            *final(final(self).buffer) == *final(old(self).buffer),
    {
        if offset > self.buffer.as_bytes().len() {
            return Err(LogError::InsertOffset);
        }
        let encoded_len: usize = match extension_record_len(&record) {
            Ok(len) => len,
            Err(e) => {
                return Err(e);
            },
        };
        let payload_len: u32 = (encoded_len - EXTENSION_RECORD_HEADER_SIZE) as u32;
        let header = chain(
            chain(
                u16_le(record.extension_type).into_chunks(),
                u16_le(record.extension_flags).into_chunks(),
            ),
            u32_le(payload_len).into_chunks(),
        );
        let ghost payload = record.payload.encoding();
        let chunks = chain(header, record.payload.into_chunks());
        proof {
            reveal_with_fuel(varint::bytes_range, 5);
            varint::le_round_trip(record.extension_type as nat, 2);
            varint::le_round_trip(record.extension_flags as nat, 2);
            varint::le_round_trip(payload_len as nat, 4);
            assert(chunks.bytes() =~= extension_record(
                record.extension_type,
                record.extension_flags,
                payload,
            ));
        }
        let ghost whole = chunks.bytes();
        match self.write(chunks) {
            Ok(_) => {},
            Err(e) => {
                return Err(e);
            },
        }
        rotate_tail(self.buffer.as_bytes_mut(), offset, encoded_len);
        proof {
            let before = old(self).buffer.contents();
            assert(self.buffer.contents() =~= before.take(offset as int) + whole + before.skip(
                offset as int,
            ));
        }
        Ok(())
    }

    /// Serializes one operation.
    ///
    /// Layout: tag(1) | flags(1) | table_id(4) | payload_len(varint) | payload,
    /// and behind it, where there is one, the length and the bytes of the
    /// portable extension.
    pub fn serialize_op_entry(
        &mut self,
        format: &LogFormat,
        row_version: &RowVersion,
        portable_extension: Option<&[u8]>,
    ) -> (r: Result<(), LogError>)
        requires
            row_version.valid(),
        ensures
            appends(
                old(self).buffer.contents(),
                final(self).buffer.contents(),
                op_entry(*format, *row_version, opt_bytes(portable_extension)),
                r,
            ),
            *final(final(self).buffer) == *final(old(self).buffer),
    {
        let extension: Option<&[u8]> = match portable_extension {
            Some(extension) => if extension.len() > 0 {
                Some(extension)
            } else {
                None
            },
            None => None,
        };
        let resident_flag: u8 = if row_version.btree_resident {
            format.flag_btree_resident
        } else {
            0
        };
        let extension_flag: u8 = if extension.is_some() {
            format.flag_portable_extension
        } else {
            0
        };
        let flags: u8 = resident_flag | extension_flag;
        let table_id: [u8; 4] = u32_le((row_version.table_id + 0x1_0000_0000) as u32);
        let record: &[u8] = row_version.payload.as_slice();
        let ghost ext = opt_bytes(portable_extension);
        proof {
            match extension {
                Some(bytes) => {
                    assert(has_extension(ext) && opt_bytes(extension) == ext);
                },
                None => {
                    assert(!has_extension(ext));
                },
            }
        }

        match (row_version.row_id, row_version.ended) {
            (RowKey::Int(rowid), false) => {
                let rowid: u64 = to_unsigned(rowid);
                let payload_len: usize = match varint_len(rowid).checked_add(record.len()) {
                    Some(len) => len,
                    None => {
                        return Err(LogError::LengthOverflow);
                    },
                };
                let payload = chain(SqliteVarint(rowid).into_chunks(), record.into_chunks());
                self.write_op(
                    format.op_upsert_table,
                    flags,
                    table_id,
                    payload_len as u64,
                    payload,
                    extension,
                )
            },
            (RowKey::Int(rowid), true) => {
                let rowid: u64 = to_unsigned(rowid);
                self.write_op(
                    format.op_delete_table,
                    flags,
                    table_id,
                    varint_len(rowid) as u64,
                    SqliteVarint(rowid).into_chunks(),
                    extension,
                )
            },
            (RowKey::Record, is_delete) => {
                let tag: u8 = if is_delete {
                    format.op_delete_index
                } else {
                    format.op_upsert_index
                };
                self.write_op(
                    tag,
                    flags,
                    table_id,
                    record.len() as u64,
                    record.into_chunks(),
                    extension,
                )
            },
        }
    }

    /// Appends an operation whose parts are encoded already.
    fn write_op<P: LogChunkStream>(
        &mut self,
        tag: u8,
        flags: u8,
        table_id: [u8; 4],
        payload_len: u64,
        payload: P,
        extension: Option<&[u8]>,
    ) -> (r: Result<(), LogError>)
        requires
            chunk::faithful(payload),
            opt_bytes(extension) matches Some(bytes) ==> bytes.len() > 0,
        ensures
            appends(
                old(self).buffer.contents(),
                final(self).buffer.contents(),
                seq![tag, flags] + table_id@ + varint::sqlite_varint(payload_len) + payload.bytes()
                    + extension_suffix(opt_bytes(extension)),
                r,
            ),
            *final(final(self).buffer) == *final(old(self).buffer),
    {
        let ghost entry = seq![tag, flags] + table_id@ + varint::sqlite_varint(payload_len)
            + payload.bytes() + extension_suffix(opt_bytes(extension));
        let head = chain(chain(tag.into_chunks(), flags.into_chunks()), table_id.into_chunks());
        let chunks = chain(chain(head, SqliteVarint(payload_len).into_chunks()), payload);
        match extension {
            Some(extension) => {
                let extended = chain(
                    chain(chunks, SqliteVarint(extension.len() as u64).into_chunks()),
                    extension.into_chunks(),
                );
                assert(extended.bytes() =~= entry);
                self.write(extended)
            },
            None => {
                assert(chunks.bytes() =~= entry);
                self.write(chunks)
            },
        }
    }

    /// Serializes a new database header. Headers are addressed by their tag
    /// alone: flags and table are zero.
    pub fn serialize_header_entry(&mut self, format: &LogFormat, header: &DatabaseHeader) -> (r:
        Result<(), LogError>)
        ensures
            appends(
                old(self).buffer.contents(),
                final(self).buffer.contents(),
                seq![format.op_update_header, 0, 0, 0, 0, 0, DATABASE_HEADER_SIZE as u8]
                    + header.bytes@,
                r,
            ),
            appends(
                old(self).buffer.contents(),
                final(self).buffer.contents(),
                header_entry(*format, header.bytes@),
                r,
            ),
            *final(final(self).buffer) == *final(old(self).buffer),
    {
        let flags: u8 = 0;
        let head = chain(
            chain(format.op_update_header.into_chunks(), flags.into_chunks()),
            u32_le(0).into_chunks(),
        );
        let sized = chain(head, SqliteVarint(DATABASE_HEADER_SIZE as u64).into_chunks());
        let chunks = chain(sized, bytes_of(&header.bytes).into_chunks());
        proof {
            reveal_with_fuel(varint::le_bytes, 5);
            reveal_with_fuel(varint::groups, 2);
            assert(chunks.bytes() =~= seq![
                format.op_update_header,
                0,
                0,
                0,
                0,
                0,
                DATABASE_HEADER_SIZE as u8,
            ] + header.bytes@);
        }
        self.write(chunks)
    }

    /// Serializes what ends a frame: its checksum and the closing magic.
    pub fn serialize_tx_trailer(&mut self, format: &LogFormat, crc: u32) -> (r: Result<
        (),
        LogError,
    >)
        ensures
            appends(
                old(self).buffer.contents(),
                final(self).buffer.contents(),
                varint::le_bytes(crc as nat, 4) + varint::le_bytes(format.end_magic as nat, 4),
                r,
            ),
            appends(
                old(self).buffer.contents(),
                final(self).buffer.contents(),
                tx_trailer(*format, crc),
                r,
            ),
            *final(final(self).buffer) == *final(old(self).buffer),
    {
        self.write(chain(u32_le(crc).into_chunks(), u32_le(format.end_magic).into_chunks()))
    }

    /// Appends a field that holds a record, unless there is none or it is
    /// empty.
    fn write_delete_field(&mut self, field: u64, record: Option<&[u8]>) -> (r: Result<
        (),
        LogError,
    >)
        ensures
            r is Ok ==> final(self).buffer.contents() == old(self).buffer.contents() + delete_field(
                field,
                opt_bytes(record),
            ),
            has_extension(opt_bytes(record)) ==> appends(
                old(self).buffer.contents(),
                final(self).buffer.contents(),
                delete_field(field, opt_bytes(record)),
                r,
            ),
            !has_extension(opt_bytes(record)) ==> r is Ok,
            *final(final(self).buffer) == *final(old(self).buffer),
    {
        if let Some(record) = record {
            if record.len() > 0 {
                let key = ProtoKey::new(field, PROTO_WIRE_LENGTH_DELIMITED);
                let chunks = chain(
                    chain(key.into_chunks(), ProtoVarint(record.len() as u64).into_chunks()),
                    record.into_chunks(),
                );
                assert(chunks.bytes() =~= delete_field(field, Some(record@)));
                return self.write(chunks);
            }
        }
        assert(self.buffer.contents() =~= old(self).buffer.contents() + delete_field(
            field,
            opt_bytes(record),
        ));
        Ok(())
    }
}

impl<'a> LogSerializer<'a, Vec<u8>> {
    /// Encodes what a delete tells about the row that it deleted.
    ///
    /// Nothing is said of when the allocator refuses.
    pub fn encode_delete_portable_extension(
        format: &LogFormat,
        identity_record: Option<&[u8]>,
        pk_record: Option<&[u8]>,
        rowid: Option<i64>,
    ) -> (r: Result<Vec<u8>, LogError>)
        ensures
            ({
                let bytes = delete_extension(
                    *format,
                    opt_bytes(identity_record),
                    opt_bytes(pk_record),
                    rowid,
                );
                match r {
                    Ok(v) => v@ == bytes,
                    Err(e) => {
                        ||| e == LogError::OutOfMemory
                        ||| e == LogError::LengthOverflow && bytes.len() > usize::MAX
                    },
                }
            }),
            delete_extension(
                *format,
                opt_bytes(identity_record),
                opt_bytes(pk_record),
                rowid,
            ).len() == 0 ==> r is Ok,
    {
        let mut extension: Vec<u8> = Vec::new();
        let ghost first = delete_field(
            format.field_delete_identity_record,
            opt_bytes(identity_record),
        );
        let ghost second = delete_field(format.field_delete_pk_record, opt_bytes(pk_record));
        let mut serializer = LogSerializer::new(&mut extension);
        match serializer.write_delete_field(format.field_delete_identity_record, identity_record) {
            Ok(_) => {},
            Err(e) => {
                return Err(e);
            },
        }
        match serializer.write_delete_field(format.field_delete_pk_record, pk_record) {
            Ok(_) => {},
            Err(e) => {
                return Err(e);
            },
        }
        assert(serializer.buffer.contents() =~= first + second);
        if let Some(rowid) = rowid {
            let field = ProtoSint64::new(format.field_delete_rowid, rowid);
            match serializer.write(field.into_chunks()) {
                Ok(_) => {},
                Err(e) => {
                    return Err(e);
                },
            }
        } else {
            assert(first + second =~= first + second + Seq::<u8>::empty());
        }
        Ok(extension)
    }
}

} // verus!

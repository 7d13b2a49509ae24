//! What a reader of the log gets back from the bytes that were written.

use vstd::prelude::*;
use crate::log::chunk::{LogBufferWrite, LogError};
use crate::log::format::LogFormat;
use crate::log::portable;
use crate::log::serializer;
use crate::log::serializer::{RowKey, RowVersion};
use crate::log::varint;
use crate::log::varint::{PROTO_WIRE_LENGTH_DELIMITED, PROTO_WIRE_VARINT, ProtoKey, ProtoSint64};

verus! {

/// An operation as it is read from the log.
pub struct ReadOp {
    pub deletes: bool,
    pub of_table: bool,
    pub btree_resident: bool,
    pub table_id: int,
    /// The number of a table's row.
    pub rowid: Option<int>,
    /// The record of a table's row, or the key of an index.
    pub record: Seq<u8>,
    pub extension: Option<Seq<u8>>,
    /// How many bytes the operation takes.
    pub len: nat,
}

/// The signed number with the bits of an unsigned word of 64 bits.
pub open spec fn signed_64(v: nat) -> int {
    if v < 0x8000_0000_0000_0000 {
        v as int
    } else {
        v - 0x1_0000_0000_0000_0000
    }
}

/// The signed number with the bits of an unsigned word of 32 bits.
pub open spec fn signed_32(v: nat) -> int {
    if v < 0x8000_0000 {
        v as int
    } else {
        v - 0x1_0000_0000
    }
}

/// Reads the operation at the front of `s`: a byte that says what it does, a
/// byte of flags, four bytes for the table, the length of the payload, and the
/// payload; behind it, where a flag says so, the length of the extension and the
/// extension. The payload of a table's row starts with the row's number.
pub open spec fn read_op(format: LogFormat, s: Seq<u8>) -> ReadOp {
    let of_table = s[0] == format.op_upsert_table || s[0] == format.op_delete_table;
    let (size, size_len) = varint::sqlite_read(s.skip(6), 0, 0);
    let start = 6 + size_len;
    let payload = s.subrange(start as int, (start + size) as int);
    let (rowid, rowid_len) = varint::sqlite_read(payload, 0, 0);
    let behind = s.skip((start + size) as int);
    let extended = s[1] & format.flag_portable_extension != 0;
    let (more, more_len) = varint::sqlite_read(behind, 0, 0);
    ReadOp {
        deletes: s[0] == format.op_delete_table || s[0] == format.op_delete_index,
        of_table,
        btree_resident: s[1] & format.flag_btree_resident != 0,
        table_id: signed_32(varint::le_value(s.subrange(2, 6))),
        rowid: if of_table {
            Some(signed_64(rowid))
        } else {
            None
        },
        record: if of_table {
            payload.skip(rowid_len as int)
        } else {
            payload
        },
        extension: if extended {
            Some(behind.subrange(more_len as int, (more_len + more) as int))
        } else {
            None
        },
        len: if extended {
            start + size + more_len + more
        } else {
            start + size
        },
    }
}

/// Whether the codes of a format can be told apart: no two tags are equal, and
/// the two flags are bits of their own.
pub open spec fn tells_apart(format: LogFormat) -> bool {
    &&& format.op_upsert_table != format.op_delete_table
    &&& format.op_upsert_table != format.op_upsert_index
    &&& format.op_upsert_table != format.op_delete_index
    &&& format.op_delete_table != format.op_upsert_index
    &&& format.op_delete_table != format.op_delete_index
    &&& format.op_upsert_index != format.op_delete_index
    &&& format.flag_btree_resident != 0
    &&& format.flag_portable_extension != 0
    &&& format.flag_btree_resident & format.flag_portable_extension == 0
}

proof fn flags_read_back(a: u8, b: u8, x: bool, y: bool)
    requires
        a != 0,
        b != 0,
        a & b == 0,
    ensures
        ({
            let f = (if x {
                a
            } else {
                0
            }) | (if y {
                b
            } else {
                0
            });
            &&& f & a != 0 <==> x
            &&& f & b != 0 <==> y
        }),
{
    let f = (if x {
        a
    } else {
        0u8
    }) | (if y {
        b
    } else {
        0u8
    });
    if x && y {
        assert((a | b) & a != 0 && (a | b) & b != 0) by (bit_vector)
            requires
                a != 0,
                b != 0,
        ;
    } else if x {
        assert((a | 0) & a != 0 && (a | 0) & b == 0) by (bit_vector)
            requires
                a != 0,
                a & b == 0,
        ;
    } else if y {
        assert((0 | b) & a == 0 && (0 | b) & b != 0) by (bit_vector)
            requires
                b != 0,
                a & b == 0,
        ;
    } else {
        assert((0u8 | 0u8) & a == 0 && (0u8 | 0u8) & b == 0) by (bit_vector);
    }
}

proof fn parts_stand_in_order(
    head: Seq<u8>,
    table: Seq<u8>,
    size: Seq<u8>,
    payload: Seq<u8>,
    suffix: Seq<u8>,
    rest: Seq<u8>,
)
    requires
        head.len() == 2,
        table.len() == 4,
    ensures
        ({
            let s = head + table + size + payload + suffix + rest;
            let start = 6 + size.len() as int;
            &&& s[0] == head[0] && s[1] == head[1]
            &&& s.subrange(2, 6) == table
            &&& s.skip(6) == size + (payload + suffix + rest)
            &&& s.subrange(start, start + payload.len()) == payload
            &&& s.skip(start + payload.len()) == suffix + rest
        }),
{
    let s = head + table + size + payload + suffix + rest;
    let start = 6 + size.len() as int;
    assert(s.subrange(2, 6) =~= table);
    assert(s.skip(6) =~= size + (payload + suffix + rest));
    assert(s.subrange(start, start + payload.len()) =~= payload);
    assert(s.skip(start + payload.len()) =~= suffix + rest);
}

proof fn row_numbers_read_back(rowid: i64, record: Seq<u8>)
    ensures
        ({
            let number = varint::sqlite_varint(serializer::unsigned(rowid));
            let (read, len) = varint::sqlite_read(number + record, 0, 0);
            &&& signed_64(read) == rowid
            &&& (number + record).skip(len as int) == record
            &&& number.len() <= 9
        }),
{
    let number = varint::sqlite_varint(serializer::unsigned(rowid));
    varint::sqlite_round_trip(serializer::unsigned(rowid), record);
    assert((number + record).skip(number.len() as int) =~= record);
}

proof fn extensions_read_back(bytes: Seq<u8>, rest: Seq<u8>)
    requires
        bytes.len() <= u64::MAX,
    ensures
        ({
            let size = varint::sqlite_varint(bytes.len() as u64);
            let behind = size + bytes + rest;
            let (more, len) = varint::sqlite_read(behind, 0, 0);
            &&& more == bytes.len()
            &&& len == size.len()
            &&& behind.subrange(len as int, (len + more) as int) == bytes
        }),
{
    let size = varint::sqlite_varint(bytes.len() as u64);
    let behind = size + bytes + rest;
    varint::sqlite_round_trip(bytes.len() as u64, bytes + rest);
    assert(behind =~= size + (bytes + rest));
    assert(behind.subrange(size.len() as int, (size.len() + bytes.len()) as int) =~= bytes);
}

/// Whatever follows an operation, a reader gets back what was written: whether
/// the row was deleted, whether it is a table's or an index's, whether the
/// b-tree holds it, the table, the row's number, its record, which a deleted row
/// of a table has not, and the extension, of which an empty one is none.
pub proof fn operations_read_back(
    format: LogFormat,
    row: RowVersion,
    extension: Option<Seq<u8>>,
    rest: Seq<u8>,
)
    requires
        tells_apart(format),
        row.valid(),
        row.payload@.len() + 9 <= u64::MAX,
        extension matches Some(bytes) ==> bytes.len() <= u64::MAX,
    ensures
        ({
            let entry = serializer::op_entry(format, row, extension);
            read_op(format, entry + rest) == (ReadOp {
                deletes: row.ended,
                of_table: row.row_id is Int,
                btree_resident: row.btree_resident,
                table_id: row.table_id as int,
                rowid: match row.row_id {
                    RowKey::Int(rowid) => Some(rowid as int),
                    RowKey::Record => None,
                },
                record: if row.row_id is Int && row.ended {
                    Seq::empty()
                } else {
                    row.payload@
                },
                extension: match extension {
                    Some(bytes) => if bytes.len() > 0 {
                        Some(bytes)
                    } else {
                        None
                    },
                    None => None,
                },
                len: entry.len(),
            })
        }),
{
    let payload = serializer::op_payload(row);
    let suffix = serializer::extension_suffix(extension);
    let extended = serializer::has_extension(extension);
    let head = seq![
        serializer::op_tag(format, row),
        serializer::op_flags(format, row, extended),
    ];
    let size = varint::sqlite_varint(payload.len() as u64);
    let table = varint::le_bytes((row.table_id + 0x1_0000_0000) as nat, 4);
    assert(0x1_0000_0000 == varint::bytes_range(4)) by {
        reveal_with_fuel(varint::bytes_range, 5);
    }
    varint::le_round_trip((row.table_id + 0x1_0000_0000) as nat, 4);
    flags_read_back(
        format.flag_btree_resident,
        format.flag_portable_extension,
        row.btree_resident,
        extended,
    );
    let record = if row.row_id is Int && row.ended {
        Seq::empty()
    } else {
        row.payload@
    };
    if let RowKey::Int(rowid) = row.row_id {
        row_numbers_read_back(rowid, record);
        assert(payload =~= varint::sqlite_varint(serializer::unsigned(rowid)) + record);
    }
    parts_stand_in_order(head, table, size, payload, suffix, rest);
    varint::sqlite_round_trip(payload.len() as u64, payload + suffix + rest);
    if extended {
        extensions_read_back(extension->Some_0, rest);
    }
    assert(head + table + size + payload + suffix == serializer::op_entry(format, row, extension));
}

/// Entries of a live and of an ended version of a row are told apart by their
/// first byte, and so are those of tables and of indexes.
pub proof fn entries_are_told_apart(
    format: LogFormat,
    a: RowVersion,
    b: RowVersion,
    more_a: Option<Seq<u8>>,
    more_b: Option<Seq<u8>>,
)
    requires
        tells_apart(format),
        a.ended != b.ended || (a.row_id is Int) != (b.row_id is Int),
    ensures
        serializer::op_entry(format, a, more_a)[0] != serializer::op_entry(format, b, more_b)[0],
{
}

/// A field of a protocol-buffer message that holds bytes, at the front of `s`:
/// its number, its bytes, and how many bytes it takes.
pub open spec fn read_bytes_field(s: Seq<u8>) -> (nat, Seq<u8>, nat) {
    let (key, key_len) = varint::proto_read(s);
    let (size, size_len) = varint::proto_read(s.skip(key_len as int));
    let start = key_len + size_len;
    (key / 8, s.subrange(start as int, (start + size) as int), start + size)
}

/// A field that holds a signed number, at the front of `s`: its number and its
/// value.
pub open spec fn read_signed_field(s: Seq<u8>) -> (nat, int) {
    let (key, key_len) = varint::proto_read(s);
    (key / 8, varint::unzigzag(varint::proto_read(s.skip(key_len as int)).0))
}

/// What the extension of a delete says: each part where there is one.
pub struct ReadDelete {
    pub identity: Option<Seq<u8>>,
    pub pk: Option<Seq<u8>>,
    pub rowid: Option<int>,
}

/// Reads the extension of a delete: the fields come in the order identity, key,
/// row number, and each may be missing.
pub open spec fn read_delete(format: LogFormat, s: Seq<u8>) -> ReadDelete {
    let has_identity = s.len() > 0 && varint::proto_read(s).0 / 8
        == format.field_delete_identity_record;
    let s1 = if has_identity {
        s.skip(read_bytes_field(s).2 as int)
    } else {
        s
    };
    let has_pk = s1.len() > 0 && varint::proto_read(s1).0 / 8 == format.field_delete_pk_record;
    let s2 = if has_pk {
        s1.skip(read_bytes_field(s1).2 as int)
    } else {
        s1
    };
    let has_rowid = s2.len() > 0 && varint::proto_read(s2).0 / 8 == format.field_delete_rowid;
    ReadDelete {
        identity: if has_identity {
            Some(read_bytes_field(s).1)
        } else {
            None
        },
        pk: if has_pk {
            Some(read_bytes_field(s1).1)
        } else {
            None
        },
        rowid: if has_rowid {
            Some(read_signed_field(s2).1)
        } else {
            None
        },
    }
}

proof fn bytes_field_reads_back(field: u64, bytes: Seq<u8>, rest: Seq<u8>)
    requires
        field < 0x2000_0000_0000_0000,
        bytes.len() > 0,
    ensures
        ({
            let f = serializer::delete_field(field, Some(bytes));
            &&& read_bytes_field(f + rest) == (field as nat, bytes, f.len())
            &&& varint::proto_read(f + rest).0 / 8 == field
            &&& (f + rest).skip(f.len() as int) == rest
            &&& f.len() > 0
        }),
{
    let key = ProtoKey { field, wire_type: PROTO_WIRE_LENGTH_DELIMITED };
    varint::proto_key_encoding(key);
    let head = key.encoding();
    let size = varint::proto_varint(bytes.len());
    let f = serializer::delete_field(field, Some(bytes));
    varint::proto_round_trip(
        varint::proto_key(field as nat, PROTO_WIRE_LENGTH_DELIMITED as nat),
        size + bytes + rest,
    );
    varint::proto_round_trip(bytes.len(), bytes + rest);
    varint::proto_len_monotone(
        varint::proto_key(field as nat, PROTO_WIRE_LENGTH_DELIMITED as nat),
        varint::proto_key(field as nat, PROTO_WIRE_LENGTH_DELIMITED as nat),
    );
    assert(f + rest =~= head + (size + bytes + rest));
    assert((f + rest).skip(head.len() as int) =~= size + (bytes + rest));
    let start = head.len() + size.len();
    assert((f + rest).subrange(start as int, (start + bytes.len()) as int) =~= bytes);
    assert((f + rest).skip(f.len() as int) =~= rest);
}

proof fn signed_field_reads_back(field: u64, value: i64)
    requires
        field < 0x2000_0000_0000_0000,
    ensures
        ({
            let f = ProtoSint64 { field, value }.encoding();
            &&& read_signed_field(f) == (field as nat, value as int)
            &&& varint::proto_read(f).0 / 8 == field
            &&& f.len() > 0
        }),
{
    let key = ProtoKey { field, wire_type: PROTO_WIRE_VARINT };
    varint::proto_key_encoding(key);
    let head = key.encoding();
    let number = varint::proto_varint(varint::zigzag(value as int));
    let f = ProtoSint64 { field, value }.encoding();
    varint::proto_round_trip(varint::proto_key(field as nat, PROTO_WIRE_VARINT as nat), number);
    varint::proto_round_trip(varint::zigzag(value as int), Seq::empty());
    varint::proto_len_monotone(
        varint::proto_key(field as nat, PROTO_WIRE_VARINT as nat),
        varint::proto_key(field as nat, PROTO_WIRE_VARINT as nat),
    );
    varint::zigzag_round_trip(value as int);
    assert(f.skip(head.len() as int) =~= number + Seq::<u8>::empty());
}

/// A reader gets back what a delete tells of the row that it deleted: the
/// identity and the key, of which empty ones are none, and the row's number.
pub proof fn deletes_read_back(
    format: LogFormat,
    identity: Option<Seq<u8>>,
    pk: Option<Seq<u8>>,
    rowid: Option<i64>,
)
    requires
        format.field_delete_identity_record < 0x2000_0000_0000_0000,
        format.field_delete_pk_record < 0x2000_0000_0000_0000,
        format.field_delete_rowid < 0x2000_0000_0000_0000,
        format.field_delete_identity_record != format.field_delete_pk_record,
        format.field_delete_identity_record != format.field_delete_rowid,
        format.field_delete_pk_record != format.field_delete_rowid,
    ensures
        read_delete(format, serializer::delete_extension(format, identity, pk, rowid)) == (
        ReadDelete {
            identity: if identity matches Some(b) && b.len() > 0 {
                identity
            } else {
                None
            },
            pk: if pk matches Some(b) && b.len() > 0 {
                pk
            } else {
                None
            },
            rowid: match rowid {
                Some(n) => Some(n as int),
                None => None,
            },
        }),
{
    let first = serializer::delete_field(format.field_delete_identity_record, identity);
    let second = serializer::delete_field(format.field_delete_pk_record, pk);
    let third = match rowid {
        Some(n) => ProtoSint64 { field: format.field_delete_rowid, value: n }.encoding(),
        None => Seq::empty(),
    };
    let s = serializer::delete_extension(format, identity, pk, rowid);
    assert(s =~= first + (second + third));
    if let Some(n) = rowid {
        signed_field_reads_back(format.field_delete_rowid, n);
    }
    if let Some(b) = pk {
        if b.len() > 0 {
            bytes_field_reads_back(format.field_delete_pk_record, b, third);
        }
    }
    if let Some(b) = identity {
        if b.len() > 0 {
            bytes_field_reads_back(format.field_delete_identity_record, b, second + third);
        }
    }
    if !serializer::has_extension(pk) {
        assert(second + third =~= third);
    }
    if !serializer::has_extension(identity) {
        assert(first + (second + third) =~= second + third);
    }
}

/// A reader gets back what an extension record was made of: two bytes of type,
/// two of flags and four of length stand before the payload.
pub proof fn extension_records_read_back(
    extension_type: u16,
    extension_flags: u16,
    payload: Seq<u8>,
    rest: Seq<u8>,
)
    requires
        payload.len() <= u32::MAX,
    ensures
        ({
            let s = serializer::extension_record(extension_type, extension_flags, payload) + rest;
            let size = varint::le_value(s.subrange(4, 8)) as int;
            &&& varint::le_value(s.subrange(0, 2)) == extension_type
            &&& varint::le_value(s.subrange(2, 4)) == extension_flags
            &&& s.subrange(8, 8 + size) == payload
            &&& s.skip(8 + size) == rest
        }),
{
    let s = serializer::extension_record(extension_type, extension_flags, payload) + rest;
    assert(varint::bytes_range(2) == 0x1_0000 && varint::bytes_range(4) == 0x1_0000_0000) by {
        reveal_with_fuel(varint::bytes_range, 5);
    }
    varint::le_round_trip(extension_type as nat, 2);
    varint::le_round_trip(extension_flags as nat, 2);
    varint::le_round_trip(payload.len(), 4);
    assert(s.subrange(0, 2) =~= varint::le_bytes(extension_type as nat, 2));
    assert(s.subrange(2, 4) =~= varint::le_bytes(extension_flags as nat, 2));
    assert(s.subrange(4, 8) =~= varint::le_bytes(payload.len(), 4));
    assert(s.subrange(8, 8 + payload.len() as int) =~= payload);
    assert(s.skip(8 + payload.len() as int) =~= rest);
}

/// A reader gets back what a portable payload was made of: behind the length of
/// the rest, the end of the frame as field 1, the time of the commit as field 2,
/// and the metadata.
pub proof fn portable_payloads_read_back(
    end_offset: u64,
    commit_ts: u64,
    metadata: Seq<u8>,
    rest: Seq<u8>,
)
    ensures
        ({
            let s = portable::payload_bytes(end_offset, commit_ts, metadata) + rest;
            let (size, n0) = varint::proto_read(s);
            let body = s.subrange(n0 as int, (n0 + size) as int);
            let (key1, n1) = varint::proto_read(body);
            let (end, n2) = varint::proto_read(body.skip(n1 as int));
            let (key2, n3) = varint::proto_read(body.skip((n1 + n2) as int));
            let (ts, n4) = varint::proto_read(body.skip((n1 + n2 + n3) as int));
            &&& key1 == 8 * 1 + PROTO_WIRE_VARINT && end == end_offset
            &&& key2 == 8 * 2 + PROTO_WIRE_VARINT && ts == commit_ts
            &&& body.skip((n1 + n2 + n3 + n4) as int) == metadata
            &&& s.skip((n0 + size) as int) == rest
        }),
{
    let body = portable::payload_body(end_offset, commit_ts, metadata);
    let s = portable::payload_bytes(end_offset, commit_ts, metadata) + rest;
    let size = varint::proto_varint(body.len());
    varint::proto_round_trip(body.len(), body + rest);
    assert(s =~= size + (body + rest));
    let n0 = size.len() as int;
    assert(s.subrange(n0, n0 + body.len()) =~= body);
    assert(s.skip(n0 + body.len()) =~= rest);
    let k1 = varint::proto_varint(8);
    let e = varint::proto_varint(end_offset as nat);
    let k2 = varint::proto_varint(16);
    let t = varint::proto_varint(commit_ts as nat);
    varint::proto_round_trip(8, e + k2 + t + metadata);
    assert(body =~= k1 + (e + k2 + t + metadata));
    varint::proto_round_trip(end_offset as nat, k2 + t + metadata);
    assert(body.skip(k1.len() as int) =~= e + (k2 + t + metadata));
    varint::proto_round_trip(16, t + metadata);
    assert(body.skip((k1.len() + e.len()) as int) =~= k2 + (t + metadata));
    varint::proto_round_trip(commit_ts as nat, metadata);
    assert(body.skip((k1.len() + e.len() + k2.len()) as int) =~= t + metadata);
    assert(body.skip((k1.len() + e.len() + k2.len() + t.len()) as int) =~= metadata);
}

/// A reader gets back a database header: its entry is laid out as those of
/// operations are, without flags and for no table, and the payload is the header.
pub proof fn headers_read_back(format: LogFormat, header: Seq<u8>, rest: Seq<u8>)
    requires
        header.len() == 100,
    ensures
        ({
            let s = serializer::header_entry(format, header) + rest;
            let (size, size_len) = varint::sqlite_read(s.skip(6), 0, 0);
            let start = 6 + size_len as int;
            &&& s[0] == format.op_update_header
            &&& s[1] == 0
            &&& varint::le_value(s.subrange(2, 6)) == 0
            &&& s.subrange(start, start + size) == header
            &&& s.skip(start + size) == rest
        }),
{
    let s = serializer::header_entry(format, header) + rest;
    let size = varint::sqlite_varint(100);
    assert(size =~= seq![100u8]) by {
        reveal_with_fuel(varint::groups, 2);
    }
    varint::sqlite_round_trip(100, header + rest);
    assert(s.skip(6) =~= size + (header + rest));
    assert(s.subrange(7, 107) =~= header);
    assert(s.skip(107) =~= rest);
    assert(varint::bytes_range(4) == 0x1_0000_0000 && varint::le_bytes(0, 4) =~= seq![
        0u8,
        0u8,
        0u8,
        0u8,
    ]) by {
        reveal_with_fuel(varint::bytes_range, 5);
        reveal_with_fuel(varint::le_bytes, 5);
    }
    varint::le_round_trip(0, 4);
    assert(s.subrange(2, 6) =~= varint::le_bytes(0, 4));
}

/// A reader gets back the checksum of a frame, and behind it the closing magic.
pub proof fn trailers_read_back(format: LogFormat, crc: u32, rest: Seq<u8>)
    ensures
        ({
            let s = serializer::tx_trailer(format, crc) + rest;
            &&& varint::le_value(s.subrange(0, 4)) == crc
            &&& varint::le_value(s.subrange(4, 8)) == format.end_magic
            &&& s.skip(8) == rest
        }),
{
    let s = serializer::tx_trailer(format, crc) + rest;
    assert(varint::bytes_range(4) == 0x1_0000_0000) by {
        reveal_with_fuel(varint::bytes_range, 5);
    }
    varint::le_round_trip(crc as nat, 4);
    varint::le_round_trip(format.end_magic as nat, 4);
    assert(s.subrange(0, 4) =~= varint::le_bytes(crc as nat, 4));
    assert(s.subrange(4, 8) =~= varint::le_bytes(format.end_magic as nat, 4));
    assert(s.skip(8) =~= rest);
}

/// What was in the buffer stays in front of what is appended. A refused append
/// changes nothing.
pub proof fn appending_keeps_what_was_there(
    before: Seq<u8>,
    after: Seq<u8>,
    bytes: Seq<u8>,
    r: Result<(), LogError>,
)
    requires
        serializer::appends(before, after, bytes, r),
    ensures
        r is Err ==> after == before,
        r is Ok ==> after.len() == before.len() + bytes.len() && after.take(before.len() as int)
            == before && after.skip(before.len() as int) == bytes,
{
    if r is Ok {
        assert(after.take(before.len() as int) =~= before);
        assert(after.skip(before.len() as int) =~= bytes);
    }
}

/// Bytes that are inserted stand at their place; without them, the buffer is as
/// it was. A refused insertion changes nothing.
pub proof fn inserting_keeps_what_was_there(
    before: Seq<u8>,
    after: Seq<u8>,
    offset: nat,
    bytes: Seq<u8>,
    r: Result<(), LogError>,
)
    requires
        serializer::inserts(before, after, offset, bytes, r),
    ensures
        r is Err ==> after == before,
        r is Ok ==> after.subrange(offset as int, (offset + bytes.len()) as int) == bytes,
        r is Ok ==> after.take(offset as int) + after.skip((offset + bytes.len()) as int) == before,
{
    if r is Ok {
        assert(after.subrange(offset as int, (offset + bytes.len()) as int) =~= bytes);
        assert(after.take(offset as int) + after.skip((offset + bytes.len()) as int) =~= before);
    }
}

} // verus!

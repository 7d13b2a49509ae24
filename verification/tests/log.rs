use tursokit::log::chunk::{LogBufferExt, LogBufferWrite, LogChunkStream, LogChunkWriter, LogError};
use tursokit::log::encrypt::EncryptedPayload;
use tursokit::log::encrypted::{encrypted_payload_blob_size, encrypted_payload_chunk_count};
use tursokit::log::format::LogFormat;
use tursokit::log::portable::{
    extension_record_len, ExtensionRecord, PortableChangePayload, PortableEndOffsetCtx,
};
use tursokit::log::serializer::{DatabaseHeader, LogSerializer, RowKey, RowVersion};
use tursokit::log::varint::{ProtoKey, ProtoSint64, ProtoVarint, SqliteVarint};

fn format() -> LogFormat {
    LogFormat {
        op_upsert_table: 0,
        op_delete_table: 1,
        op_upsert_index: 2,
        op_delete_index: 3,
        op_update_header: 4,
        flag_btree_resident: 1,
        flag_portable_extension: 2,
        end_magic: 0xA1B2C3D4,
        log_header_size: 56,
        tx_trailer_size: 8,
        field_delete_identity_record: 1,
        field_delete_pk_record: 2,
        field_delete_rowid: 3,
    }
}

#[test]
fn fragment_chunks_preserve_wire_format() {
    let metadata = [3];
    let mut bytes = Vec::new();
    LogSerializer::new(&mut bytes)
        .write(PortableChangePayload::new(1, 2, &metadata).into_chunks())
        .unwrap();

    assert_eq!(bytes, [5, 8, 1, 16, 2, 3]);
}

struct WrongLength;

impl LogChunkStream for WrongLength {
    fn announced_len(&self) -> Option<usize> {
        unreachable!()
    }

    fn bytes(&self) -> vstd::prelude::Seq<u8> {
        unreachable!()
    }

    fn encoded_len(&self) -> Option<usize> {
        Some(0)
    }

    fn copy_to(self, writer: &mut LogChunkWriter) -> Result<(), LogError> {
        writer.copy_from_slice(&[1])
    }
}

#[test]
fn chunk_length_mismatch_does_not_change_buffer() {
    let mut buffer = vec![2];
    let result = LogSerializer::new(&mut buffer).write(WrongLength);

    assert!(result.is_err());
    assert_eq!(buffer, [2]);
}

/// A stream that announces a length of its own.
struct Announced(Option<usize>, Vec<u8>);

impl LogChunkStream for Announced {
    fn announced_len(&self) -> Option<usize> {
        unreachable!()
    }

    fn bytes(&self) -> vstd::prelude::Seq<u8> {
        unreachable!()
    }

    fn encoded_len(&self) -> Option<usize> {
        self.0
    }

    fn copy_to(self, writer: &mut LogChunkWriter) -> Result<(), LogError> {
        writer.copy_from_slice(&self.1)
    }
}

#[test]
fn streams_write_what_they_announce() {
    let mut buffer = vec![2];
    for (announced, bytes, error) in [
        (Some(0), vec![1], LogError::LengthMismatch),
        (Some(2), vec![1], LogError::LengthMismatch),
        (None, vec![1], LogError::LengthOverflow),
        (Some(usize::MAX), vec![1], LogError::LengthOverflow),
    ] {
        let stream = Announced(announced, bytes);
        assert_eq!(LogSerializer::new(&mut buffer).write(stream), Err(error));
        assert_eq!(buffer, [2]);
    }
    buffer
        .try_extend_chunks(Announced(Some(1), vec![1]))
        .unwrap();
    assert_eq!(buffer, [2, 1]);
}

#[test]
fn insert_preserves_surrounding_bytes() {
    let mut buffer = vec![1, 4];
    LogSerializer::new(&mut buffer).insert(1, [2, 3]).unwrap();

    assert_eq!(buffer, [1, 2, 3, 4]);
}

#[test]
fn portable_extension_insert_preserves_wire_format() {
    let mut buffer = vec![9, 10];
    let payload = PortableChangePayload::new(1, 2, &[3]);
    let record = ExtensionRecord::new(0x1234, 0x5678, payload);

    LogSerializer::new(&mut buffer)
        .insert_portable_extension(1, record)
        .unwrap();

    assert_eq!(
        buffer,
        [9, 0x34, 0x12, 0x78, 0x56, 6, 0, 0, 0, 5, 8, 1, 16, 2, 3, 10,]
    );
}

#[test]
fn insert_beyond_the_end_is_refused() {
    let mut buffer = vec![1, 4];
    assert!(LogSerializer::new(&mut buffer).insert(3, [2, 3]).is_err());
    assert_eq!(buffer, [1, 4]);
}

fn encoded<W: LogBufferWrite>(value: W) -> Vec<u8> {
    let mut bytes = Vec::new();
    LogSerializer::new(&mut bytes).write(value.into_chunks()).unwrap();
    bytes
}

#[test]
fn varints_have_the_known_encodings() {
    assert_eq!(encoded(ProtoVarint(0)), [0]);
    assert_eq!(encoded(ProtoVarint(127)), [127]);
    assert_eq!(encoded(ProtoVarint(300)), [0xAC, 0x02]);
    assert_eq!(encoded(ProtoVarint(u64::MAX)).len(), 10);
    assert_eq!(encoded(SqliteVarint(0)), [0]);
    assert_eq!(encoded(SqliteVarint(128)), [0x81, 0x00]);
    assert_eq!(encoded(SqliteVarint(u64::MAX)), [0xFF; 9]);
    assert_eq!(encoded(ProtoKey::new(3, 2)), [0x1A]);
    assert_eq!(encoded(ProtoSint64::new(3, -1)), [0x18, 0x01]);
    assert_eq!(encoded(ProtoSint64::new(3, 1)), [0x18, 0x02]);
    assert_eq!(ProtoSint64::new(3, i64::MIN).zigzag(), u64::MAX);
}

#[test]
fn table_rows_are_written_with_their_payloads() {
    let row = RowVersion {
        ended: false,
        btree_resident: true,
        table_id: -2,
        row_id: RowKey::Int(5),
        payload: vec![7, 8],
    };
    let mut bytes = Vec::new();
    LogSerializer::new(&mut bytes)
        .serialize_op_entry(&format(), &row, None)
        .unwrap();
    assert_eq!(bytes[0], 0);
    assert_eq!(bytes[1], 1);
    assert_eq!(bytes[2..6], (-2i32).to_le_bytes());
    assert_eq!(bytes[6..], [3, 5, 7, 8]);
}

#[test]
fn header_and_trailer_have_fixed_sizes() {
    let mut bytes = Vec::new();
    let header = DatabaseHeader { bytes: [9; 100] };
    LogSerializer::new(&mut bytes)
        .serialize_header_entry(&format(), &header)
        .unwrap();
    assert_eq!(bytes[0], 4);
    assert_eq!(bytes[bytes.len() - 100..], [9; 100]);
    let before = bytes.len();
    LogSerializer::new(&mut bytes)
        .serialize_tx_trailer(&format(), 0x01020304)
        .unwrap();
    assert_eq!(bytes.len(), before + 8);
    assert_eq!(bytes[before..before + 4], [4, 3, 2, 1]);
    assert_eq!(bytes[before + 4..], 0xA1B2C3D4u32.to_le_bytes());
}

#[test]
fn deletes_carry_what_identifies_the_row() {
    let bytes =
        LogSerializer::encode_delete_portable_extension(&format(), Some(&[1, 2]), None, Some(-1))
            .unwrap();
    assert_eq!(bytes, [0x0A, 2, 1, 2, 0x18, 1]);
}

#[test]
fn end_offsets_settle() {
    let ctx = PortableEndOffsetCtx {
        write_offset: 100,
        includes_log_header: true,
        tx_header_size: 24,
        recovery_payload_size: 10,
        encrypted_payload_chunk_size: 64,
        encryption_overhead: None,
    };
    let metadata = [1, 2, 3];
    let payload =
        PortableChangePayload::with_stable_end_offset(ctx, &format(), 7, &metadata).unwrap();
    let len = payload.encoded_len().unwrap();
    assert_eq!(
        ctx.frame_end_offset(&format(), len).unwrap(),
        payload.end_offset
    );
    let record = ExtensionRecord::new(1, 0, payload);
    assert_eq!(extension_record_len(&record).unwrap(), len + 8);
}

#[test]
fn encrypted_sizes_count_every_chunk() {
    assert_eq!(encrypted_payload_chunk_count(0, 16), 0);
    assert_eq!(encrypted_payload_chunk_count(16, 16), 1);
    assert_eq!(encrypted_payload_chunk_count(17, 16), 2);
    assert_eq!(encrypted_payload_blob_size(17, 16, 2, 3).unwrap(), 17 + 2 * 5);
    assert!(encrypted_payload_blob_size(usize::MAX, 1, 1, 1).is_err());
}

#[test]
fn chunks_are_staged_one_behind_the_other() {
    let mut bytes: Vec<u8> = (0..20).collect();
    let payload = EncryptedPayload {
        payload_start: 2,
        plaintext_size: 18,
        chunk_size: 10,
        tag_size: 2,
        nonce_size: 3,
        salt: 1,
        op_count: 4,
        commit_ts: 5,
    };
    let mut serializer = LogSerializer::new(&mut bytes);
    let mut cursor = serializer.begin_encryption(payload).unwrap();
    let mut slots = Vec::new();
    while let Some(slot) = serializer.stage_chunk(&mut cursor).unwrap() {
        // A cipher that flips every bit, with a tag and a nonce of ones.
        for byte in &mut serializer.buffer[slot.ciphertext_start..slot.tag_start] {
            *byte = !*byte;
        }
        serializer.buffer[slot.tag_start..slot.chunk_end].fill(1);
        slots.push(slot);
    }
    slots.sort_by_key(|slot| slot.ciphertext_start);
    assert_eq!(slots.len(), 2);
    assert_eq!(slots[0].ciphertext_start, 2);
    assert_eq!(slots[0].chunk_end, slots[1].ciphertext_start);
    assert_eq!(slots[1].chunk_end, bytes.len());
    assert_eq!(slots[0].aad.plaintext_size, None);
    assert_eq!(slots[1].aad.plaintext_size, Some(18));
    assert_eq!(slots[1].aad.chunk_index, 1);
    let opened: Vec<u8> = slots
        .iter()
        .flat_map(|slot| bytes[slot.ciphertext_start..slot.tag_start].iter().map(|b| !b))
        .collect();
    assert_eq!(opened, (2..20).collect::<Vec<u8>>());
}

#[test]
fn bytes_are_appended_to_buffers() {
    let mut bytes = vec![1u8];
    let other: &[u8] = &[2, 3];
    bytes.try_extend_chunks(other.into_chunks()).unwrap();
    assert_eq!(bytes, [1, 2, 3]);
    bytes.try_resize_zeroed(5).unwrap();
    assert_eq!(bytes, [1, 2, 3, 0, 0]);
    assert_eq!(bytes.try_resize_zeroed(2), Err(LogError::BufferShrinks));
    assert_eq!(bytes.len(), 5);
}

#[test]
fn payloads_that_cannot_be_placed_are_refused() {
    let payload = EncryptedPayload {
        payload_start: 2,
        plaintext_size: 4,
        chunk_size: 4,
        tag_size: 1,
        nonce_size: 1,
        salt: 0,
        op_count: 0,
        commit_ts: 0,
    };
    let refused = |len: usize, payload: EncryptedPayload| -> LogError {
        let mut buffer = vec![9; len];
        let mut serializer = LogSerializer::new(&mut buffer);
        match serializer.begin_encryption(payload) {
            Err(e) => e,
            Ok(_) => panic!("the payload has a place"),
        }
    };
    assert_eq!(refused(1, payload), LogError::EncryptedStart);
    assert_eq!(refused(9, payload), LogError::BufferShrinks);
    let far = EncryptedPayload {
        payload_start: usize::MAX - 1,
        ..payload
    };
    assert_eq!(refused(6, far), LogError::EncryptedEndOverflow);
    let large = EncryptedPayload {
        plaintext_size: usize::MAX,
        ..payload
    };
    assert_eq!(refused(6, large), LogError::EncryptedSizeOverflow);
    assert_eq!(
        LogError::EncryptedStart.message(),
        "encrypted payload start exceeds buffer length"
    );
}

#[test]
fn frames_that_are_too_large_are_refused() {
    let ctx = PortableEndOffsetCtx {
        write_offset: 0,
        includes_log_header: false,
        tx_header_size: 24,
        recovery_payload_size: 10,
        encrypted_payload_chunk_size: 64,
        encryption_overhead: None,
    };
    let refused = |ctx: PortableEndOffsetCtx, len: usize| {
        ctx.frame_end_offset(&format(), len).unwrap_err()
    };
    assert_eq!(ctx.frame_end_offset(&format(), 5), Ok(24 + 10 + 8 + 5 + 8));
    assert_eq!(refused(ctx, usize::MAX), LogError::PortableExtensionOverflow);
    let full = PortableEndOffsetCtx {
        recovery_payload_size: usize::MAX,
        ..ctx
    };
    assert_eq!(refused(full, 5), LogError::PortablePlaintextOverflow);
    let encrypted = PortableEndOffsetCtx {
        encryption_overhead: Some((usize::MAX, 0)),
        ..ctx
    };
    assert_eq!(refused(encrypted, 5), LogError::EncryptedSizeOverflow);
    let wide = PortableEndOffsetCtx {
        tx_header_size: usize::MAX,
        ..ctx
    };
    assert_eq!(refused(wide, 5), LogError::PortableFrameOverflow);
    let late = PortableEndOffsetCtx {
        write_offset: u64::MAX,
        ..ctx
    };
    assert_eq!(refused(late, 5), LogError::PortableOffsetOverflow);
}

/// A buffer that counts how often it was extended.
struct Counted {
    bytes: Vec<u8>,
    extended: usize,
}

impl LogBufferExt for Counted {
    fn contents(&self) -> vstd::prelude::Seq<u8> {
        unreachable!()
    }

    fn as_bytes(&self) -> &[u8] {
        &self.bytes
    }

    fn as_bytes_mut(&mut self) -> &mut [u8] {
        &mut self.bytes
    }

    fn try_extend_chunks<C: LogChunkStream>(&mut self, chunks: C) -> Result<(), LogError> {
        self.extended += 1;
        self.bytes.try_extend_chunks(chunks)
    }

    fn try_resize_zeroed(&mut self, new_len: usize) -> Result<(), LogError> {
        self.bytes.try_resize_zeroed(new_len)
    }
}

#[test]
fn any_buffer_can_be_written_to() {
    let mut buffer = Counted {
        bytes: vec![1, 5],
        extended: 0,
    };
    let mut serializer = LogSerializer::new(&mut buffer);
    serializer.insert(1, [2, 3, 4]).unwrap();
    serializer.write([6].into_chunks()).unwrap();
    assert_eq!(serializer.insert(9, [0]), Err(LogError::InsertOffset));
    assert_eq!(buffer.bytes, [1, 2, 3, 4, 5, 6]);
    assert_eq!(buffer.extended, 2);
}
